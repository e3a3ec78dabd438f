//! Light containers: a fixed number of slots per light type over one packed
//! uniform buffer, selected by a cursor.
use vstd::prelude::*;
use crate::buffer::{UniformBuffer, field_offset};
use vstd::arithmetic::div_mod::{lemma_mod_multiples_vanish, lemma_small_mod};

verus! {

/// The number of slots of each light type.
pub const MAX_NO_LIGHTS: usize = 4;

/// The bit pattern of the scalar `0.0`.
pub const SCALAR_ZERO: u32 = 0;

/// The bit pattern of the scalar `1.0`.
pub const SCALAR_ONE: u32 = 0x3f80_0000;

/// The bit pattern of the scalar `0.5`.
pub const SCALAR_HALF: u32 = 0x3f00_0000;

/// The bit pattern of the scalar `-1.0`.
pub const SCALAR_MINUS_ONE: u32 = 0xbf80_0000;

/// The bit pattern of the default constant attenuation, `0.5`.
pub const DEFAULT_CONSTANT: u32 = 0x3f00_0000;

/// The bit pattern of the default linear attenuation, `0.05`.
pub const DEFAULT_LINEAR: u32 = 0x3d4c_cccd;

/// The bit pattern of the default exponential attenuation, `0.005`.
pub const DEFAULT_EXPONENTIAL: u32 = 0x3ba3_d70a;

/// The bit pattern of the default spot cutoff, a tenth of pi.
pub const DEFAULT_CUTOFF: u32 = 0x3ea0_d97c;

/// A three-component vector, each component the bit pattern of a
/// single-precision float.
#[derive(Debug, Clone, Copy, PartialEq, Eq, Structural)]
pub struct Vector3 {
    pub x: u32,
    pub y: u32,
    pub z: u32,
}

impl Vector3 {
    pub open spec fn view(&self) -> Seq<u32> {
        seq![self.x, self.y, self.z]
    }

    pub fn new(x: u32, y: u32, z: u32) -> (r: Vector3)
        ensures
            r == (Vector3 { x, y, z }),
    {
        Vector3 { x, y, z }
    }

    /// The components in order, as the buffer stores them.
    pub fn to_slice(&self) -> (r: Vec<u32>)
        ensures
            r@ == self@,
    {
        let r = vec![self.x, self.y, self.z];
        assert(r@ =~= self@);
        r
    }
}

/// A 4x4 matrix in column-major order, each entry the bit pattern of a
/// single-precision float.
#[derive(Debug, Clone, Copy)]
pub struct Matrix4 {
    pub m: [u32; 16],
}

/// Sixteen zero scalars: the packed form of the all-zero matrix.
pub open spec fn zero_matrix() -> Seq<u32> {
    Seq::new(16, |k: int| SCALAR_ZERO)
}

impl Matrix4 {
    pub open spec fn view(&self) -> Seq<u32> {
        self.m@
    }

    /// The all-zero matrix, which marks a slot as casting no shadow.
    pub fn zero() -> (r: Matrix4)
        ensures
            r@ == zero_matrix(),
    {
        let r = Matrix4 { m: [SCALAR_ZERO; 16] };
        assert(r@ =~= zero_matrix());
        r
    }

    /// The entries in column-major order, as the buffer stores them.
    pub fn to_slice(&self) -> (r: Vec<u32>)
        ensures
            r@ == self@,
    {
        let mut r: Vec<u32> = Vec::new();
        let mut k: usize = 0;
        while k < 16
            invariant
                k <= 16,
                r@ == self@.subrange(0, k as int),
            decreases 16 - k,
        {
            r.push(self.m[k]);
            k = k + 1;
            assert(r@ =~= self@.subrange(0, k as int));
        }
        assert(r@ =~= self@);
        r
    }
}

/// `n` zero scalars.
pub open spec fn zeros(n: u32) -> Seq<u32> {
    Seq::new(n as nat, |k: int| SCALAR_ZERO)
}

/// `count` fields whose widths repeat `pattern`.
pub open spec fn repeated(pattern: Seq<u32>, count: int) -> Seq<u32> {
    Seq::new(count as nat, |f: int| pattern[f % pattern.len() as int])
}

/// The fields of slot `i`, for records of `stride` fields.
pub open spec fn slot_of(fields: Seq<Seq<u32>>, stride: int, i: int) -> Seq<Seq<u32>> {
    fields.subrange(i * stride, i * stride + stride)
}

proof fn lemma_slot_range(stride: int, i: int, j: int)
    requires
        0 < stride,
        0 <= i,
        0 <= j,
        i != j,
    ensures
        i < j ==> i * stride + stride <= j * stride,
        j < i ==> j * stride + stride <= i * stride,
{
    if i < j {
        assert(i * stride + stride <= j * stride) by (nonlinear_arith)
            requires
                0 < stride,
                i + 1 <= j,
        ;
    } else {
        assert(j * stride + stride <= i * stride) by (nonlinear_arith)
            requires
                0 < stride,
                j + 1 <= i,
        ;
    }
}

/// A write to field `k` of slot `i` changes that slot's field `k` alone and
/// leaves every other slot as it was.
proof fn lemma_write_in_slot(
    fields: Seq<Seq<u32>>,
    stride: int,
    i: int,
    k: int,
    v: Seq<u32>,
)
    requires
        0 < stride,
        0 <= k < stride,
        0 <= i < MAX_NO_LIGHTS,
        fields.len() == MAX_NO_LIGHTS * stride,
    ensures
        slot_of(fields.update(i * stride + k, v), stride, i) == slot_of(fields, stride, i).update(
            k,
            v,
        ),
        forall|j: int|
            0 <= j < MAX_NO_LIGHTS && j != i ==> #[trigger] slot_of(
                fields.update(i * stride + k, v),
                stride,
                j,
            ) == slot_of(fields, stride, j),
{
    assert((i + 1) * stride <= MAX_NO_LIGHTS * stride) by (nonlinear_arith)
        requires
            0 < stride,
            i + 1 <= MAX_NO_LIGHTS,
    ;
    assert(i * stride >= 0) by (nonlinear_arith)
        requires
            0 < stride,
            0 <= i,
    ;
    assert((i + 1) * stride == i * stride + stride) by (nonlinear_arith);
    let after = fields.update(i * stride + k, v);
    assert(slot_of(after, stride, i) =~= slot_of(fields, stride, i).update(k, v));
    assert forall|j: int| 0 <= j < MAX_NO_LIGHTS && j != i implies #[trigger] slot_of(
        after,
        stride,
        j,
    ) == slot_of(fields, stride, j) by {
        lemma_slot_range(stride, i, j);
        assert((j + 1) * stride <= MAX_NO_LIGHTS * stride) by (nonlinear_arith)
            requires
                0 < stride,
                j + 1 <= MAX_NO_LIGHTS,
        ;
        assert(j * stride >= 0) by (nonlinear_arith)
            requires
                0 < stride,
                0 <= j,
        ;
        assert((j + 1) * stride == j * stride + stride) by (nonlinear_arith);
        assert(slot_of(after, stride, j) =~= slot_of(fields, stride, j));
    }
}

/// The field widths of `count` fields repeating `pattern`.
fn repeated_sizes(pattern: &[u32], count: usize) -> (r: Vec<u32>)
    requires
        pattern@.len() > 0,
    ensures
        r@ == repeated(pattern@, count as int),
{
    let mut r: Vec<u32> = Vec::new();
    let mut f: usize = 0;
    while f < count
        invariant
            pattern@.len() > 0,
            f <= count,
            r@ == repeated(pattern@, f as int),
        decreases count - f,
    {
        r.push(pattern[f % pattern.len()]);
        f = f + 1;
        assert(r@ =~= repeated(pattern@, f as int));
    }
    r
}

/// Writes field `flat` of a buffer whose layout admits the write.
fn write_field(buffer: &mut UniformBuffer, flat: usize, values: &[u32])
    requires
        old(buffer).wf(),
        flat < old(buffer).sizes().len(),
        values@.len() == old(buffer).sizes()[flat as int],
    ensures
        final(buffer).wf(),
        final(buffer).sizes() == old(buffer).sizes(),
        final(buffer)@ == old(buffer)@.update(flat as int, values@),
{
    let _ = buffer.update(flat, values);
}

/// The slot every field of a fresh buffer holds: zeros of each width.
pub open spec fn zero_slot(pattern: Seq<u32>) -> Seq<Seq<u32>> {
    Seq::new(pattern.len(), |k: int| zeros(pattern[k]))
}

proof fn lemma_offset_bound(sizes: Seq<u32>, i: int)
    requires
        0 <= i <= sizes.len(),
        forall|f: int| 0 <= f < sizes.len() ==> sizes[f] <= 16,
    ensures
        field_offset(sizes, i) <= 16 * i,
    decreases i,
{
    if i > 0 {
        lemma_offset_bound(sizes, i - 1);
    }
}

/// A fresh, all-zero buffer of `MAX_NO_LIGHTS` slots, each laid out as
/// `pattern`.
fn slots_buffer(pattern: &[u32]) -> (r: UniformBuffer)
    requires
        0 < pattern@.len() <= 16,
        forall|k: int| 0 <= k < pattern@.len() ==> pattern@[k] <= 16,
    ensures
        r.wf(),
        r.sizes() == repeated(pattern@, MAX_NO_LIGHTS * pattern@.len()),
        r@.len() == MAX_NO_LIGHTS * pattern@.len(),
        forall|i: int|
            0 <= i < MAX_NO_LIGHTS ==> #[trigger] slot_of(r@, pattern@.len() as int, i)
                == zero_slot(pattern@),
{
    let ghost stride = pattern@.len() as int;
    let sizes = repeated_sizes(pattern, MAX_NO_LIGHTS * pattern.len());
    proof {
        assert forall|f: int| 0 <= f < sizes@.len() implies sizes@[f] <= 16 by {
            assert(0 <= f % stride < stride) by (nonlinear_arith)
                requires
                    0 < stride,
            ;
        }
        lemma_offset_bound(sizes@, sizes@.len() as int);
    }
    let r = match UniformBuffer::new(&sizes) {
        Ok(b) => b,
        Err(_) => unreached(),
    };
    proof {
        assert forall|i: int| 0 <= i < MAX_NO_LIGHTS implies #[trigger] slot_of(r@, stride, i)
            == zero_slot(pattern@) by {
            assert((i + 1) * stride <= MAX_NO_LIGHTS * stride) by (nonlinear_arith)
                requires
                    0 < stride,
                    i + 1 <= MAX_NO_LIGHTS,
            ;
            assert(i * stride >= 0) by (nonlinear_arith)
                requires
                    0 < stride,
                    0 <= i,
            ;
            assert((i + 1) * stride == i * stride + stride) by (nonlinear_arith);
            assert forall|k: int| 0 <= k < stride implies slot_of(r@, stride, i)[k] == zero_slot(
                pattern@,
            )[k] by {
                lemma_mod_multiples_vanish(i, k, stride);
                lemma_small_mod(k as nat, stride as nat);
                assert(i * stride == stride * i) by (nonlinear_arith);
                assert(r@[i * stride + k] =~= zeros(pattern@[k]));
            }
            assert(slot_of(r@, stride, i) =~= zero_slot(pattern@));
        }
    }
    r
}

/// The single light that lights every surface evenly.
pub struct AmbientLight {
    color: Vector3,
    intensity: u32,
}

impl AmbientLight {
    pub closed spec fn spec_color(&self) -> Vector3 {
        self.color
    }

    pub closed spec fn spec_intensity(&self) -> u32 {
        self.intensity
    }

    /// White light at half intensity.
    pub fn new() -> (r: AmbientLight)
        ensures
            r.spec_color() == (Vector3 { x: SCALAR_ONE, y: SCALAR_ONE, z: SCALAR_ONE }),
            r.spec_intensity() == SCALAR_HALF,
    {
        AmbientLight {
            color: Vector3 { x: SCALAR_ONE, y: SCALAR_ONE, z: SCALAR_ONE },
            intensity: SCALAR_HALF,
        }
    }

    pub fn color(&self) -> (r: Vector3)
        ensures
            r == self.spec_color(),
    {
        self.color
    }

    pub fn set_color(&mut self, color: &Vector3)
        ensures
            final(self).spec_color() == *color,
            final(self).spec_intensity() == old(self).spec_intensity(),
    {
        self.color = *color;
    }

    pub fn intensity(&self) -> (r: u32)
        ensures
            r == self.spec_intensity(),
    {
        self.intensity
    }

    pub fn set_intensity(&mut self, intensity: u32)
        ensures
            final(self).spec_intensity() == intensity,
            final(self).spec_color() == old(self).spec_color(),
    {
        self.intensity = intensity;
    }
}

/// The record layout of a point light slot: color, intensity, the constant,
/// linear and exponential attenuation, a pad, position, a pad.
pub open spec fn point_pattern() -> Seq<u32> {
    seq![3u32, 1, 1, 1, 1, 1, 3, 1]
}

/// The number of fields of a point light slot.
pub const POINT_STRIDE: usize = 8;

/// What each point light slot holds after construction: white at intensity
/// zero, at the origin, with the default attenuation.
pub open spec fn point_defaults() -> Seq<Seq<u32>> {
    seq![
        seq![SCALAR_ONE, SCALAR_ONE, SCALAR_ONE],
        seq![SCALAR_ZERO],
        seq![DEFAULT_CONSTANT],
        seq![DEFAULT_LINEAR],
        seq![DEFAULT_EXPONENTIAL],
        seq![SCALAR_ZERO],
        seq![SCALAR_ZERO, SCALAR_ZERO, SCALAR_ZERO],
        seq![SCALAR_ZERO],
    ]
}

/// Up to four point lights, each a record of fields in one buffer.
pub struct PointLight {
    light_buffer: UniformBuffer,
    index: usize,
}

impl PointLight {
    pub closed spec fn wf(&self) -> bool {
        &&& self.light_buffer.wf()
        &&& self.light_buffer.sizes() == repeated(
            point_pattern(),
            MAX_NO_LIGHTS * POINT_STRIDE,
        )
        &&& self.index < MAX_NO_LIGHTS
    }

    /// The slot the cursor selects.
    pub closed spec fn current(&self) -> int {
        self.index as int
    }

    pub closed spec fn spec_buffer(&self) -> UniformBuffer {
        self.light_buffer
    }

    /// Every field of every slot, slot after slot.
    pub open spec fn fields(&self) -> Seq<Seq<u32>> {
        self.spec_buffer()@
    }

    /// The fields of slot `i`.
    pub open spec fn slot(&self, i: int) -> Seq<Seq<u32>> {
        slot_of(self.fields(), POINT_STRIDE as int, i)
    }

    /// `self` is `before` with field `k` of the selected slot set to `v`,
    /// and every other slot unchanged.
    pub open spec fn wrote(&self, before: &PointLight, k: int, v: Seq<u32>) -> bool {
        &&& self.wf()
        &&& self.fields().len() == MAX_NO_LIGHTS * POINT_STRIDE
        &&& self.current() == before.current()
        &&& self.fields() == before.fields().update(
            before.current() * POINT_STRIDE + k,
            v,
        )
        &&& self.slot(before.current()) == before.slot(before.current()).update(k, v)
        &&& forall|j: int|
            0 <= j < MAX_NO_LIGHTS && j != before.current() ==> #[trigger] self.slot(j)
                == before.slot(j)
    }

    fn write(&mut self, k: usize, values: &[u32])
        requires
            old(self).wf(),
            k < POINT_STRIDE,
            values@.len() == point_pattern()[k as int],
        ensures
            final(self).wrote(old(self), k as int, values@),
    {
        proof {
            lemma_mod_multiples_vanish(self.index as int, k as int, POINT_STRIDE as int);
            lemma_small_mod(k as nat, POINT_STRIDE as nat);
            lemma_write_in_slot(
                self.fields(),
                POINT_STRIDE as int,
                self.index as int,
                k as int,
                values@,
            );
        }
        let flat = self.index_at(k);
        write_field(&mut self.light_buffer, flat, values);
    }

    /// All slots at their defaults, the cursor on the last slot.
    pub fn new() -> (r: PointLight)
        ensures
            r.wf(),
            r.fields().len() == MAX_NO_LIGHTS * POINT_STRIDE,
            r.current() == MAX_NO_LIGHTS - 1,
            forall|i: int| 0 <= i < MAX_NO_LIGHTS ==> #[trigger] r.slot(i) == point_defaults(),
    {
        let pattern: [u32; 8] = [3u32, 1, 1, 1, 1, 1, 3, 1];
        assert(pattern@ =~= point_pattern());
        let mut lights = PointLight { light_buffer: slots_buffer(&pattern), index: 0 };
        let white = Vector3 { x: SCALAR_ONE, y: SCALAR_ONE, z: SCALAR_ONE };
        let origin = Vector3 { x: SCALAR_ZERO, y: SCALAR_ZERO, z: SCALAR_ZERO };
        let mut light_id: usize = 0;
        while light_id < MAX_NO_LIGHTS
            invariant
                lights.wf(),
                light_id <= MAX_NO_LIGHTS,
                light_id > 0 ==> lights.current() == light_id - 1,
                white@ == seq![SCALAR_ONE, SCALAR_ONE, SCALAR_ONE],
                origin@ == seq![SCALAR_ZERO, SCALAR_ZERO, SCALAR_ZERO],
                forall|j: int| 0 <= j < light_id ==> #[trigger] lights.slot(j) == point_defaults(),
                forall|j: int|
                    light_id <= j < MAX_NO_LIGHTS ==> #[trigger] lights.slot(j) == zero_slot(
                        point_pattern(),
                    ),
            decreases MAX_NO_LIGHTS - light_id,
        {
            let ghost before = lights;
            lights.index = light_id;
            assert(lights.fields() == before.fields());
            let ghost fresh = before.slot(light_id as int);
            lights.set_intensity(SCALAR_ZERO);
            lights.set_color(&white);
            lights.set_position(&origin);
            lights.set_attenuation(DEFAULT_CONSTANT, DEFAULT_LINEAR, DEFAULT_EXPONENTIAL);
            assert forall|j: int| 0 <= j < MAX_NO_LIGHTS && j != light_id implies #[trigger] lights.slot(
                j,
            ) == before.slot(j) by {}
            assert(lights.slot(light_id as int) =~= point_defaults()) by {
                assert(fresh == zero_slot(point_pattern()));
                assert(zero_slot(point_pattern())[1] =~= seq![SCALAR_ZERO]);
                assert(zero_slot(point_pattern())[5] =~= seq![SCALAR_ZERO]);
                assert(zero_slot(point_pattern())[7] =~= seq![SCALAR_ZERO]);
            }
            light_id = light_id + 1;
        }
        lights
    }

    pub fn set_color(&mut self, color: &Vector3)
        requires
            old(self).wf(),
        ensures
            final(self).wrote(old(self), 0, color@),
    {
        let values = color.to_slice();
        self.write(0, values.as_slice());
    }

    pub fn set_intensity(&mut self, intensity: u32)
        requires
            old(self).wf(),
        ensures
            final(self).wrote(old(self), 1, seq![intensity]),
    {
        let values = [intensity];
        assert(values@ =~= seq![intensity]);
        self.write(1, &values);
    }

    /// Sets the falloff `1 / (constant + linear * d + exponential * d * d)`
    /// at distance `d`, by its three coefficients.
    pub fn set_attenuation(&mut self, constant: u32, linear: u32, exponential: u32)
        requires
            old(self).wf(),
        ensures
            final(self).wf(),
            final(self).fields().len() == old(self).fields().len(),
            final(self).current() == old(self).current(),
            final(self).slot(old(self).current()) == old(self).slot(old(self).current()).update(
                2,
                seq![constant],
            ).update(3, seq![linear]).update(4, seq![exponential]),
            forall|j: int|
                0 <= j < MAX_NO_LIGHTS && j != old(self).current() ==> #[trigger] final(self).slot(
                    j,
                ) == old(self).slot(j),
    {
        let c = [constant];
        let l = [linear];
        let e = [exponential];
        assert(c@ =~= seq![constant]);
        assert(l@ =~= seq![linear]);
        assert(e@ =~= seq![exponential]);
        self.write(2, &c);
        self.write(3, &l);
        self.write(4, &e);
    }

    pub fn set_position(&mut self, position: &Vector3)
        requires
            old(self).wf(),
        ensures
            final(self).wrote(old(self), 6, position@),
    {
        let values = position.to_slice();
        self.write(6, values.as_slice());
    }

    /// The buffer the shaders read.
    pub fn buffer(&self) -> (r: &UniformBuffer)
        ensures
            *r == self.spec_buffer(),
    {
        &self.light_buffer
    }

    /// Selects slot `index` for the setters that follow.
    pub fn light_at(&mut self, index: usize) -> (r: &mut Self)
        requires
            old(self).wf(),
            index < MAX_NO_LIGHTS,
        ensures
            r.wf(),
            r.current() == index,
            r.spec_buffer() == old(self).spec_buffer(),
            *final(self) == *final(r),
    {
        self.index = index;
        self
    }

    /// The buffer field of field `index` of the selected slot.
    fn index_at(&self, index: usize) -> (r: usize)
        requires
            self.wf(),
            index < POINT_STRIDE,
        ensures
            r == self.current() * POINT_STRIDE + index,
    {
        self.index * POINT_STRIDE + index
    }
}

/// The record layout of a directional light slot: color, intensity,
/// direction, a pad, the packed shadow matrix.
pub open spec fn directional_pattern() -> Seq<u32> {
    seq![3u32, 1, 3, 1, 16]
}

/// The number of fields of a directional light slot.
pub const DIRECTIONAL_STRIDE: usize = 5;

/// What each directional light slot holds after construction: white at
/// intensity zero, pointing straight down, casting no shadow.
pub open spec fn directional_defaults() -> Seq<Seq<u32>> {
    seq![
        seq![SCALAR_ONE, SCALAR_ONE, SCALAR_ONE],
        seq![SCALAR_ZERO],
        seq![SCALAR_ZERO, SCALAR_MINUS_ONE, SCALAR_ZERO],
        seq![SCALAR_ZERO],
        zero_matrix(),
    ]
}

/// The slots in increasing order whose flag is set.
pub open spec fn listed_in_order(r: Seq<usize>, flags: Seq<bool>) -> bool {
    &&& forall|a: int, b: int| 0 <= a < b < r.len() ==> r[a] < r[b]
    &&& forall|k: int| 0 <= k < r.len() ==> r[k] < flags.len() && flags[r[k] as int]
    &&& forall|i: int| 0 <= i < flags.len() && flags[i] ==> r.contains(i as usize)
}

fn flagged_slots(flags: &Vec<bool>) -> (r: Vec<usize>)
    ensures
        listed_in_order(r@, flags@),
{
    let mut r: Vec<usize> = Vec::new();
    let mut i: usize = 0;
    while i < flags.len()
        invariant
            i <= flags@.len(),
            forall|a: int, b: int| 0 <= a < b < r@.len() ==> r@[a] < r@[b],
            forall|k: int| 0 <= k < r@.len() ==> r@[k] < i && flags@[r@[k] as int],
            forall|j: int| 0 <= j < i && flags@[j] ==> r@.contains(j as usize),
        decreases flags@.len() - i,
    {
        if flags[i] {
            let ghost prev = r@;
            r.push(i);
            assert(r@[r@.len() - 1] == i);
            assert forall|j: int| 0 <= j < i && flags@[j] implies r@.contains(j as usize) by {
                let k = choose|k: int| 0 <= k < prev.len() && prev[k] == j as usize;
                assert(r@[k] == j as usize);
            }
        }
        i = i + 1;
    }
    r
}

/// Up to four directional lights, each a record of fields in one buffer,
/// each able to cast a shadow.
pub struct DirectionalLight {
    light_buffer: UniformBuffer,
    shadow_cameras: Vec<bool>,
    index: usize,
}

impl DirectionalLight {
    pub closed spec fn wf(&self) -> bool {
        &&& self.light_buffer.wf()
        &&& self.light_buffer.sizes() == repeated(
            directional_pattern(),
            MAX_NO_LIGHTS * DIRECTIONAL_STRIDE,
        )
        &&& self.shadow_cameras@.len() == MAX_NO_LIGHTS
        &&& self.index < MAX_NO_LIGHTS
    }

    /// The slot the cursor selects.
    pub closed spec fn current(&self) -> int {
        self.index as int
    }

    /// For each slot, whether it holds a shadow camera.
    pub closed spec fn shadows(&self) -> Seq<bool> {
        self.shadow_cameras@
    }

    pub closed spec fn spec_buffer(&self) -> UniformBuffer {
        self.light_buffer
    }

    /// Every field of every slot, slot after slot.
    pub open spec fn fields(&self) -> Seq<Seq<u32>> {
        self.spec_buffer()@
    }

    /// The fields of slot `i`.
    pub open spec fn slot(&self, i: int) -> Seq<Seq<u32>> {
        slot_of(self.fields(), DIRECTIONAL_STRIDE as int, i)
    }

    /// `self` is `before` with field `k` of the selected slot set to `v`,
    /// and every other slot unchanged.
    pub open spec fn wrote(&self, before: &DirectionalLight, k: int, v: Seq<u32>) -> bool {
        &&& self.wf()
        &&& self.fields().len() == MAX_NO_LIGHTS * DIRECTIONAL_STRIDE
        &&& self.shadows().len() == MAX_NO_LIGHTS
        &&& self.current() == before.current()
        &&& self.fields() == before.fields().update(
            before.current() * DIRECTIONAL_STRIDE + k,
            v,
        )
        &&& self.slot(before.current()) == before.slot(before.current()).update(k, v)
        &&& forall|j: int|
            0 <= j < MAX_NO_LIGHTS && j != before.current() ==> #[trigger] self.slot(j)
                == before.slot(j)
    }

    fn write(&mut self, k: usize, values: &[u32])
        requires
            old(self).wf(),
            k < DIRECTIONAL_STRIDE,
            values@.len() == directional_pattern()[k as int],
        ensures
            final(self).wrote(old(self), k as int, values@),
            final(self).shadows() == old(self).shadows(),
    {
        proof {
            lemma_mod_multiples_vanish(self.index as int, k as int, DIRECTIONAL_STRIDE as int);
            lemma_small_mod(k as nat, DIRECTIONAL_STRIDE as nat);
            lemma_write_in_slot(
                self.fields(),
                DIRECTIONAL_STRIDE as int,
                self.index as int,
                k as int,
                values@,
            );
        }
        let flat = self.index_at(k);
        write_field(&mut self.light_buffer, flat, values);
    }

    /// All slots at their defaults, the cursor on the last slot.
    pub fn new() -> (r: DirectionalLight)
        ensures
            r.wf(),
            r.fields().len() == MAX_NO_LIGHTS * DIRECTIONAL_STRIDE,
            r.shadows().len() == MAX_NO_LIGHTS,
            r.current() == MAX_NO_LIGHTS - 1,
            forall|i: int|
                0 <= i < MAX_NO_LIGHTS ==> #[trigger] r.slot(i) == directional_defaults()
                    && !r.shadows()[i],
    {
        let pattern: [u32; 5] = [3u32, 1, 3, 1, 16];
        assert(pattern@ =~= directional_pattern());
        let mut lights = DirectionalLight {
            light_buffer: slots_buffer(&pattern),
            shadow_cameras: vec![false, false, false, false],
            index: 0,
        };
        let white = Vector3 { x: SCALAR_ONE, y: SCALAR_ONE, z: SCALAR_ONE };
        let down = Vector3 { x: SCALAR_ZERO, y: SCALAR_MINUS_ONE, z: SCALAR_ZERO };
        let mut light_id: usize = 0;
        while light_id < MAX_NO_LIGHTS
            invariant
                lights.wf(),
                light_id <= MAX_NO_LIGHTS,
                light_id > 0 ==> lights.current() == light_id - 1,
                white@ == seq![SCALAR_ONE, SCALAR_ONE, SCALAR_ONE],
                down@ == seq![SCALAR_ZERO, SCALAR_MINUS_ONE, SCALAR_ZERO],
                forall|j: int| 0 <= j < MAX_NO_LIGHTS ==> !lights.shadows()[j],
                forall|j: int|
                    0 <= j < light_id ==> #[trigger] lights.slot(j) == directional_defaults(),
                forall|j: int|
                    light_id <= j < MAX_NO_LIGHTS ==> #[trigger] lights.slot(j) == zero_slot(
                        directional_pattern(),
                    ),
            decreases MAX_NO_LIGHTS - light_id,
        {
            let ghost before = lights;
            lights.index = light_id;
            assert(lights.fields() == before.fields());
            assert(lights.shadows() == before.shadows());
            let ghost fresh = before.slot(light_id as int);
            lights.set_intensity(SCALAR_ZERO);
            lights.set_color(&white);
            lights.write(2, down.to_slice().as_slice());
            lights.disable_shadows();
            assert forall|j: int| 0 <= j < MAX_NO_LIGHTS && j != light_id implies #[trigger] lights.slot(
                j,
            ) == before.slot(j) by {}
            assert(lights.slot(light_id as int) =~= directional_defaults()) by {
                assert(fresh == zero_slot(directional_pattern()));
                assert(zero_slot(directional_pattern())[3] =~= seq![SCALAR_ZERO]);
            }
            light_id = light_id + 1;
        }
        lights
    }

    pub fn set_color(&mut self, color: &Vector3)
        requires
            old(self).wf(),
        ensures
            final(self).wrote(old(self), 0, color@),
            final(self).shadows() == old(self).shadows(),
    {
        let values = color.to_slice();
        self.write(0, values.as_slice());
    }

    pub fn set_intensity(&mut self, intensity: u32)
        requires
            old(self).wf(),
        ensures
            final(self).wrote(old(self), 1, seq![intensity]),
            final(self).shadows() == old(self).shadows(),
    {
        let values = [intensity];
        assert(values@ =~= seq![intensity]);
        self.write(1, &values);
    }

    /// Sets the direction of the selected slot and gives it the shadow
    /// matrix of its shadow camera for that direction.
    pub fn set_direction(&mut self, direction: &Vector3, shadow_matrix: &Matrix4)
        requires
            old(self).wf(),
        ensures
            final(self).wf(),
            final(self).fields().len() == old(self).fields().len(),
            final(self).current() == old(self).current(),
            final(self).slot(old(self).current()) == old(self).slot(old(self).current()).update(
                2,
                direction@,
            ).update(4, shadow_matrix@),
            final(self).shadows() == old(self).shadows().update(old(self).current(), true),
            forall|j: int|
                0 <= j < MAX_NO_LIGHTS && j != old(self).current() ==> #[trigger] final(self).slot(
                    j,
                ) == old(self).slot(j),
    {
        let values = direction.to_slice();
        self.write(2, values.as_slice());
        self.update_shadows(shadow_matrix);
    }

    pub fn direction(&self) -> (r: Vector3)
        requires
            self.wf(),
        ensures
            r@ == self.slot(self.current())[2],
    {
        let flat = self.index_at(2);
        proof {
            self.lemma_field(2);
        }
        let d = self.light_buffer.get(flat).unwrap();
        let r = Vector3 { x: d[0], y: d[1], z: d[2] };
        assert(r@ =~= d@);
        r
    }

    proof fn lemma_field(&self, k: int)
        requires
            self.wf(),
            0 <= k < DIRECTIONAL_STRIDE,
        ensures
            self.current() * DIRECTIONAL_STRIDE + k < self.fields().len(),
            self.fields().len() == MAX_NO_LIGHTS * DIRECTIONAL_STRIDE,
            self.slot(self.current())[k] == self.fields()[self.current() * DIRECTIONAL_STRIDE + k],
            self.spec_buffer().sizes()[self.current() * DIRECTIONAL_STRIDE + k]
                == directional_pattern()[k],
    {
        lemma_mod_multiples_vanish(self.current(), k, DIRECTIONAL_STRIDE as int);
        lemma_small_mod(k as nat, DIRECTIONAL_STRIDE as nat);
    }

    pub fn is_shadows_enabled(&self) -> (r: bool)
        requires
            self.wf(),
        ensures
            r == self.shadows()[self.current()],
    {
        self.shadow_cameras[self.index]
    }

    /// Gives the selected slot a shadow camera, whose shadow matrix is
    /// `shadow_matrix`.
    pub fn enable_shadows(&mut self, shadow_matrix: &Matrix4)
        requires
            old(self).wf(),
        ensures
            final(self).wrote(old(self), 4, shadow_matrix@),
            final(self).shadows() == old(self).shadows().update(old(self).current(), true),
    {
        self.update_shadows(shadow_matrix);
    }

    /// Moves the selected slot's shadow camera, creating it if the slot has
    /// none, and stores its new shadow matrix.
    pub fn update_shadows(&mut self, shadow_matrix: &Matrix4)
        requires
            old(self).wf(),
        ensures
            final(self).wrote(old(self), 4, shadow_matrix@),
            final(self).shadows() == old(self).shadows().update(old(self).current(), true),
    {
        self.shadow_cameras.set(self.index, true);
        let values = shadow_matrix.to_slice();
        self.write(4, values.as_slice());
    }

    /// Drops the selected slot's shadow camera and stores the all-zero
    /// matrix, which the shaders read as "no shadow".
    pub fn disable_shadows(&mut self)
        requires
            old(self).wf(),
        ensures
            final(self).wrote(old(self), 4, zero_matrix()),
            final(self).shadows() == old(self).shadows().update(old(self).current(), false),
    {
        self.shadow_cameras.set(self.index, false);
        let values = Matrix4::zero().to_slice();
        self.write(4, values.as_slice());
    }

    /// The slots whose shadow maps a shadow pass renders, in order.
    pub fn shadow_pass_slots(&self) -> (r: Vec<usize>)
        ensures
            listed_in_order(r@, self.shadows()),
    {
        flagged_slots(&self.shadow_cameras)
    }

    /// The buffer the shaders read.
    pub fn buffer(&self) -> (r: &UniformBuffer)
        ensures
            *r == self.spec_buffer(),
    {
        &self.light_buffer
    }

    /// Selects slot `index` for the setters that follow.
    pub fn light_at(&mut self, index: usize) -> (r: &mut Self)
        requires
            old(self).wf(),
            index < MAX_NO_LIGHTS,
        ensures
            r.wf(),
            r.current() == index,
            r.spec_buffer() == old(self).spec_buffer(),
            r.shadows() == old(self).shadows(),
            *final(self) == *final(r),
    {
        self.index = index;
        self
    }

    /// The buffer field of field `index` of the selected slot.
    fn index_at(&self, index: usize) -> (r: usize)
        requires
            self.wf(),
            index < DIRECTIONAL_STRIDE,
        ensures
            r == self.current() * DIRECTIONAL_STRIDE + index,
    {
        self.index * DIRECTIONAL_STRIDE + index
    }
}

/// The record layout of a spot light slot: color, intensity, the constant,
/// linear and exponential attenuation, a pad, position, cutoff, direction,
/// a pad, the packed shadow matrix.
pub open spec fn spot_pattern() -> Seq<u32> {
    seq![3u32, 1, 1, 1, 1, 1, 3, 1, 3, 1, 16]
}

/// The number of fields of a spot light slot.
pub const SPOT_STRIDE: usize = 11;

/// What each spot light slot holds after construction: white at intensity
/// zero, at the origin pointing straight down, with the default cutoff and
/// attenuation, casting no shadow.
pub open spec fn spot_defaults() -> Seq<Seq<u32>> {
    seq![
        seq![SCALAR_ONE, SCALAR_ONE, SCALAR_ONE],
        seq![SCALAR_ZERO],
        seq![DEFAULT_CONSTANT],
        seq![DEFAULT_LINEAR],
        seq![DEFAULT_EXPONENTIAL],
        seq![SCALAR_ZERO],
        seq![SCALAR_ZERO, SCALAR_ZERO, SCALAR_ZERO],
        seq![DEFAULT_CUTOFF],
        seq![SCALAR_ZERO, SCALAR_MINUS_ONE, SCALAR_ZERO],
        seq![SCALAR_ZERO],
        zero_matrix(),
    ]
}

/// Up to four spot lights, each a record of fields in one buffer, each able
/// to cast a shadow through a perspective camera at its position.
pub struct SpotLight {
    light_buffer: UniformBuffer,
    shadow_cameras: Vec<bool>,
    index: usize,
}

impl SpotLight {
    pub closed spec fn wf(&self) -> bool {
        &&& self.light_buffer.wf()
        &&& self.light_buffer.sizes() == repeated(spot_pattern(), MAX_NO_LIGHTS * SPOT_STRIDE)
        &&& self.shadow_cameras@.len() == MAX_NO_LIGHTS
        &&& self.index < MAX_NO_LIGHTS
    }

    /// The slot the cursor selects.
    pub closed spec fn current(&self) -> int {
        self.index as int
    }

    /// For each slot, whether it holds a shadow camera.
    pub closed spec fn shadows(&self) -> Seq<bool> {
        self.shadow_cameras@
    }

    pub closed spec fn spec_buffer(&self) -> UniformBuffer {
        self.light_buffer
    }

    /// Every field of every slot, slot after slot.
    pub open spec fn fields(&self) -> Seq<Seq<u32>> {
        self.spec_buffer()@
    }

    /// The fields of slot `i`.
    pub open spec fn slot(&self, i: int) -> Seq<Seq<u32>> {
        slot_of(self.fields(), SPOT_STRIDE as int, i)
    }

    /// `self` is `before` with field `k` of the selected slot set to `v`,
    /// and every other slot unchanged.
    pub open spec fn wrote(&self, before: &SpotLight, k: int, v: Seq<u32>) -> bool {
        &&& self.wf()
        &&& self.fields().len() == MAX_NO_LIGHTS * SPOT_STRIDE
        &&& self.shadows().len() == MAX_NO_LIGHTS
        &&& self.current() == before.current()
        &&& self.fields() == before.fields().update(before.current() * SPOT_STRIDE + k, v)
        &&& self.slot(before.current()) == before.slot(before.current()).update(k, v)
        &&& forall|j: int|
            0 <= j < MAX_NO_LIGHTS && j != before.current() ==> #[trigger] self.slot(j)
                == before.slot(j)
    }

    /// `self` is `before` with field `k` of the selected slot set to `v`,
    /// the slot's shadow camera updated and its shadow matrix set to `m`.
    pub open spec fn wrote_with_shadow(
        &self,
        before: &SpotLight,
        k: int,
        v: Seq<u32>,
        m: Seq<u32>,
    ) -> bool {
        &&& self.wf()
        &&& self.fields().len() == MAX_NO_LIGHTS * SPOT_STRIDE
        &&& self.shadows().len() == MAX_NO_LIGHTS
        &&& self.current() == before.current()
        &&& self.slot(before.current()) == before.slot(before.current()).update(k, v).update(
            10,
            m,
        )
        &&& self.shadows() == before.shadows().update(before.current(), true)
        &&& forall|j: int|
            0 <= j < MAX_NO_LIGHTS && j != before.current() ==> #[trigger] self.slot(j)
                == before.slot(j)
    }

    fn write(&mut self, k: usize, values: &[u32])
        requires
            old(self).wf(),
            k < SPOT_STRIDE,
            values@.len() == spot_pattern()[k as int],
        ensures
            final(self).wrote(old(self), k as int, values@),
            final(self).shadows() == old(self).shadows(),
    {
        proof {
            lemma_mod_multiples_vanish(self.index as int, k as int, SPOT_STRIDE as int);
            lemma_small_mod(k as nat, SPOT_STRIDE as nat);
            lemma_write_in_slot(
                self.fields(),
                SPOT_STRIDE as int,
                self.index as int,
                k as int,
                values@,
            );
        }
        let flat = self.index_at(k);
        write_field(&mut self.light_buffer, flat, values);
    }

    proof fn lemma_field(&self, k: int)
        requires
            self.wf(),
            0 <= k < SPOT_STRIDE,
        ensures
            self.current() * SPOT_STRIDE + k < self.fields().len(),
            self.fields().len() == MAX_NO_LIGHTS * SPOT_STRIDE,
            self.slot(self.current())[k] == self.fields()[self.current() * SPOT_STRIDE + k],
            self.spec_buffer().sizes()[self.current() * SPOT_STRIDE + k] == spot_pattern()[k],
    {
        lemma_mod_multiples_vanish(self.current(), k, SPOT_STRIDE as int);
        lemma_small_mod(k as nat, SPOT_STRIDE as nat);
    }

    fn read_vector(&self, k: usize) -> (r: Vector3)
        requires
            self.wf(),
            k < SPOT_STRIDE,
            spot_pattern()[k as int] == 3,
        ensures
            r@ == self.slot(self.current())[k as int],
    {
        let flat = self.index_at(k);
        proof {
            self.lemma_field(k as int);
        }
        let d = self.light_buffer.get(flat).unwrap();
        let r = Vector3 { x: d[0], y: d[1], z: d[2] };
        assert(r@ =~= d@);
        r
    }

    /// All slots at their defaults, the cursor on the last slot.
    pub fn new() -> (r: SpotLight)
        ensures
            r.wf(),
            r.fields().len() == MAX_NO_LIGHTS * SPOT_STRIDE,
            r.shadows().len() == MAX_NO_LIGHTS,
            r.current() == MAX_NO_LIGHTS - 1,
            forall|i: int|
                0 <= i < MAX_NO_LIGHTS ==> #[trigger] r.slot(i) == spot_defaults()
                    && !r.shadows()[i],
    {
        let pattern: [u32; 11] = [3u32, 1, 1, 1, 1, 1, 3, 1, 3, 1, 16];
        assert(pattern@ =~= spot_pattern());
        let mut lights = SpotLight {
            light_buffer: slots_buffer(&pattern),
            shadow_cameras: vec![false, false, false, false],
            index: 0,
        };
        let white = Vector3 { x: SCALAR_ONE, y: SCALAR_ONE, z: SCALAR_ONE };
        let down = Vector3 { x: SCALAR_ZERO, y: SCALAR_MINUS_ONE, z: SCALAR_ZERO };
        let origin = Vector3 { x: SCALAR_ZERO, y: SCALAR_ZERO, z: SCALAR_ZERO };
        let cutoff = [DEFAULT_CUTOFF];
        assert(cutoff@ =~= seq![DEFAULT_CUTOFF]);
        let mut light_id: usize = 0;
        while light_id < MAX_NO_LIGHTS
            invariant
                lights.wf(),
                light_id <= MAX_NO_LIGHTS,
                light_id > 0 ==> lights.current() == light_id - 1,
                white@ == seq![SCALAR_ONE, SCALAR_ONE, SCALAR_ONE],
                down@ == seq![SCALAR_ZERO, SCALAR_MINUS_ONE, SCALAR_ZERO],
                origin@ == seq![SCALAR_ZERO, SCALAR_ZERO, SCALAR_ZERO],
                cutoff@ == seq![DEFAULT_CUTOFF],
                forall|j: int| 0 <= j < MAX_NO_LIGHTS ==> !lights.shadows()[j],
                forall|j: int| 0 <= j < light_id ==> #[trigger] lights.slot(j) == spot_defaults(),
                forall|j: int|
                    light_id <= j < MAX_NO_LIGHTS ==> #[trigger] lights.slot(j) == zero_slot(
                        spot_pattern(),
                    ),
            decreases MAX_NO_LIGHTS - light_id,
        {
            let ghost before = lights;
            lights.index = light_id;
            assert(lights.fields() == before.fields());
            assert(lights.shadows() == before.shadows());
            let ghost fresh = before.slot(light_id as int);
            lights.set_intensity(SCALAR_ZERO);
            lights.set_color(&white);
            lights.write(7, &cutoff);
            lights.write(8, down.to_slice().as_slice());
            lights.write(6, origin.to_slice().as_slice());
            lights.set_attenuation(DEFAULT_CONSTANT, DEFAULT_LINEAR, DEFAULT_EXPONENTIAL);
            lights.disable_shadows();
            assert forall|j: int| 0 <= j < MAX_NO_LIGHTS && j != light_id implies #[trigger] lights.slot(
                j,
            ) == before.slot(j) by {}
            assert(lights.slot(light_id as int) =~= spot_defaults()) by {
                assert(fresh == zero_slot(spot_pattern()));
                assert(zero_slot(spot_pattern())[5] =~= seq![SCALAR_ZERO]);
                assert(zero_slot(spot_pattern())[9] =~= seq![SCALAR_ZERO]);
            }
            light_id = light_id + 1;
        }
        lights
    }

    pub fn set_color(&mut self, color: &Vector3)
        requires
            old(self).wf(),
        ensures
            final(self).wrote(old(self), 0, color@),
            final(self).shadows() == old(self).shadows(),
    {
        let values = color.to_slice();
        self.write(0, values.as_slice());
    }

    pub fn set_intensity(&mut self, intensity: u32)
        requires
            old(self).wf(),
        ensures
            final(self).wrote(old(self), 1, seq![intensity]),
            final(self).shadows() == old(self).shadows(),
    {
        let values = [intensity];
        assert(values@ =~= seq![intensity]);
        self.write(1, &values);
    }

    /// Sets the falloff `1 / (constant + linear * d + exponential * d * d)`
    /// at distance `d`, by its three coefficients.
    pub fn set_attenuation(&mut self, constant: u32, linear: u32, exponential: u32)
        requires
            old(self).wf(),
        ensures
            final(self).wf(),
            final(self).fields().len() == old(self).fields().len(),
            final(self).current() == old(self).current(),
            final(self).shadows() == old(self).shadows(),
            final(self).slot(old(self).current()) == old(self).slot(old(self).current()).update(
                2,
                seq![constant],
            ).update(3, seq![linear]).update(4, seq![exponential]),
            forall|j: int|
                0 <= j < MAX_NO_LIGHTS && j != old(self).current() ==> #[trigger] final(self).slot(
                    j,
                ) == old(self).slot(j),
    {
        let c = [constant];
        let l = [linear];
        let e = [exponential];
        assert(c@ =~= seq![constant]);
        assert(l@ =~= seq![linear]);
        assert(e@ =~= seq![exponential]);
        self.write(2, &c);
        self.write(3, &l);
        self.write(4, &e);
    }

    /// Moves the selected slot to `position`; `shadow_matrix` is its shadow
    /// camera's matrix from there.
    pub fn set_position(&mut self, position: &Vector3, shadow_matrix: &Matrix4)
        requires
            old(self).wf(),
        ensures
            final(self).wrote_with_shadow(old(self), 6, position@, shadow_matrix@),
    {
        let values = position.to_slice();
        self.write(6, values.as_slice());
        self.update_shadow_camera(shadow_matrix);
    }

    pub fn position(&self) -> (r: Vector3)
        requires
            self.wf(),
        ensures
            r@ == self.slot(self.current())[6],
    {
        self.read_vector(6)
    }

    /// Sets the cutoff half-angle of the selected slot; `shadow_matrix` is
    /// its shadow camera's matrix with that angle.
    pub fn set_cutoff(&mut self, cutoff: u32, shadow_matrix: &Matrix4)
        requires
            old(self).wf(),
        ensures
            final(self).wrote_with_shadow(old(self), 7, seq![cutoff], shadow_matrix@),
    {
        let values = [cutoff];
        assert(values@ =~= seq![cutoff]);
        self.write(7, &values);
        self.update_shadow_camera(shadow_matrix);
    }

    /// The cutoff half-angle of the selected slot.
    pub fn cutoff(&self) -> (r: u32)
        requires
            self.wf(),
        ensures
            seq![r] == self.slot(self.current())[7],
    {
        let flat = self.index_at(7);
        proof {
            self.lemma_field(7);
        }
        let c = self.light_buffer.get(flat).unwrap();
        assert(c@ =~= seq![c[0]]);
        c[0]
    }

    /// Sets the (unit) direction of the selected slot; `shadow_matrix` is its
    /// shadow camera's matrix along it.
    pub fn set_direction(&mut self, direction: &Vector3, shadow_matrix: &Matrix4)
        requires
            old(self).wf(),
        ensures
            final(self).wrote_with_shadow(old(self), 8, direction@, shadow_matrix@),
    {
        let values = direction.to_slice();
        self.write(8, values.as_slice());
        self.update_shadow_camera(shadow_matrix);
    }

    pub fn direction(&self) -> (r: Vector3)
        requires
            self.wf(),
        ensures
            r@ == self.slot(self.current())[8],
    {
        self.read_vector(8)
    }

    fn update_shadow_camera(&mut self, shadow_matrix: &Matrix4)
        requires
            old(self).wf(),
        ensures
            final(self).wrote(old(self), 10, shadow_matrix@),
            final(self).shadows() == old(self).shadows().update(old(self).current(), true),
    {
        self.shadow_cameras.set(self.index, true);
        let values = shadow_matrix.to_slice();
        self.write(10, values.as_slice());
    }

    pub fn is_shadows_enabled(&self) -> (r: bool)
        requires
            self.wf(),
        ensures
            r == self.shadows()[self.current()],
    {
        self.shadow_cameras[self.index]
    }

    /// Gives the selected slot a shadow camera, whose shadow matrix is
    /// `shadow_matrix`.
    pub fn enable_shadows(&mut self, shadow_matrix: &Matrix4)
        requires
            old(self).wf(),
        ensures
            final(self).wrote(old(self), 10, shadow_matrix@),
            final(self).shadows() == old(self).shadows().update(old(self).current(), true),
    {
        self.update_shadow_camera(shadow_matrix);
    }

    /// Drops the selected slot's shadow camera and stores the all-zero
    /// matrix, which the shaders read as "no shadow".
    pub fn disable_shadows(&mut self)
        requires
            old(self).wf(),
        ensures
            final(self).wrote(old(self), 10, zero_matrix()),
            final(self).shadows() == old(self).shadows().update(old(self).current(), false),
    {
        self.shadow_cameras.set(self.index, false);
        let values = Matrix4::zero().to_slice();
        self.write(10, values.as_slice());
    }

    /// The slots whose shadow maps a shadow pass renders, in order.
    pub fn shadow_pass_slots(&self) -> (r: Vec<usize>)
        ensures
            listed_in_order(r@, self.shadows()),
    {
        flagged_slots(&self.shadow_cameras)
    }

    /// The buffer the shaders read.
    pub fn buffer(&self) -> (r: &UniformBuffer)
        ensures
            *r == self.spec_buffer(),
    {
        &self.light_buffer
    }

    /// Selects slot `index` for the setters that follow.
    pub fn light_at(&mut self, index: usize) -> (r: &mut Self)
        requires
            old(self).wf(),
            index < MAX_NO_LIGHTS,
        ensures
            r.wf(),
            r.current() == index,
            r.spec_buffer() == old(self).spec_buffer(),
            r.shadows() == old(self).shadows(),
            *final(self) == *final(r),
    {
        self.index = index;
        self
    }

    /// The buffer field of field `index` of the selected slot.
    fn index_at(&self, index: usize) -> (r: usize)
        requires
            self.wf(),
            index < SPOT_STRIDE,
        ensures
            r == self.current() * SPOT_STRIDE + index,
    {
        self.index * SPOT_STRIDE + index
    }
}

} // verus!
