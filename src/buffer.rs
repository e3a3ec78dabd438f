//! A packed, fixed-layout block of 32-bit scalars, addressed by field index.
use vstd::prelude::*;

verus! {

/// Why an access to a [`UniformBuffer`] was refused.
#[derive(Debug, Clone, Copy, PartialEq, Eq, Structural)]
pub enum BufferError {
    /// The field index lies past the last field.
    OutOfRange,
    /// The number of values written differs from the field's width.
    SizeMismatch,
    /// The widths add up to more scalars than memory can address.
    TooLarge,
}

/// Where field `i` starts in the packed scalar data: the widths of all
/// earlier fields, summed.
pub open spec fn field_offset(sizes: Seq<u32>, i: int) -> int
    decreases i,
{
    if i <= 0 {
        0
    } else {
        field_offset(sizes, i - 1) + sizes[i - 1]
    }
}

/// The total number of scalars for the given field widths.
pub open spec fn total_size(sizes: Seq<u32>) -> int {
    field_offset(sizes, sizes.len() as int)
}

proof fn lemma_offset_monotone(sizes: Seq<u32>, i: int, j: int)
    requires
        0 <= i <= j <= sizes.len(),
    ensures
        field_offset(sizes, i) <= field_offset(sizes, j),
    decreases j - i,
{
    if i < j {
        lemma_offset_monotone(sizes, i, j - 1);
    }
}

/// The scalar block behind one light type: each scalar is the bit pattern of
/// a single-precision float as the shaders read it. Field `i` has the fixed
/// width `sizes[i]` and occupies a contiguous run of the packed data.
pub struct UniformBuffer {
    sizes: Vec<u32>,
    offsets: Vec<usize>,
    data: Vec<u32>,
}

impl UniformBuffer {
    /// The width of each field.
    pub closed spec fn sizes(&self) -> Seq<u32> {
        self.sizes@
    }

    /// The packed scalars, field after field.
    pub closed spec fn flat(&self) -> Seq<u32> {
        self.data@
    }

    pub closed spec fn wf(&self) -> bool {
        &&& self.offsets@.len() == self.sizes@.len()
        &&& forall|i: int|
            0 <= i < self.sizes@.len() ==> self.offsets@[i] as int == field_offset(
                self.sizes@,
                i,
            )
        &&& self.data@.len() == total_size(self.sizes@)
        &&& self.data@.len() <= usize::MAX
    }

    /// The scalars of field `i`.
    pub open spec fn field(&self, i: int) -> Seq<u32> {
        self.flat().subrange(
            field_offset(self.sizes(), i),
            field_offset(self.sizes(), i) + self.sizes()[i],
        )
    }

    /// The contents, one sequence of scalars per field.
    pub open spec fn view(&self) -> Seq<Seq<u32>> {
        Seq::new(self.sizes().len(), |i: int| self.field(i))
    }

    proof fn lemma_field_bounds(&self, i: int)
        requires
            self.wf(),
            0 <= i < self.sizes().len(),
        ensures
            0 <= field_offset(self.sizes(), i),
            field_offset(self.sizes(), i) + self.sizes()[i] <= self.flat().len(),
    {
        lemma_offset_monotone(self.sizes(), 0, i);
        lemma_offset_monotone(self.sizes(), i + 1, self.sizes().len() as int);
    }

    /// A buffer with the given field widths, every scalar zero; refused if
    /// the widths add up to more than `usize::MAX`.
    pub fn new(field_sizes: &Vec<u32>) -> (r: Result<UniformBuffer, BufferError>)
        ensures
            total_size(field_sizes@) > usize::MAX ==> r == Err::<UniformBuffer, BufferError>(
                BufferError::TooLarge,
            ),
            total_size(field_sizes@) <= usize::MAX ==> (r matches Ok(b) && b.wf() && b.sizes()
                == field_sizes@ && b.flat() == Seq::new(
                total_size(field_sizes@) as nat,
                |k: int| 0u32,
            ) && forall|i: int|
                0 <= i < field_sizes@.len() ==> #[trigger] b@[i] == Seq::new(
                    field_sizes@[i] as nat,
                    |k: int| 0u32,
                )),
    {
        let n = field_sizes.len();
        let mut offsets: Vec<usize> = Vec::new();
        let mut total: usize = 0;
        let mut i: usize = 0;
        while i < n
            invariant
                n == field_sizes@.len(),
                i <= n,
                offsets@.len() == i,
                total as int == field_offset(field_sizes@, i as int),
                forall|k: int| 0 <= k < i ==> offsets@[k] as int == field_offset(field_sizes@, k),
            decreases n - i,
        {
            proof {
                lemma_offset_monotone(field_sizes@, i as int + 1, n as int);
            }
            offsets.push(total);
            match total.checked_add(field_sizes[i] as usize) {
                Some(t) => total = t,
                None => return Err(BufferError::TooLarge),
            }
            i = i + 1;
        }
        let mut data: Vec<u32> = Vec::new();
        let mut k: usize = 0;
        while k < total
            invariant
                k <= total,
                data@.len() == k,
                forall|j: int| 0 <= j < k ==> data@[j] == 0u32,
            decreases total - k,
        {
            data.push(0u32);
            k = k + 1;
        }
        let r = UniformBuffer { sizes: field_sizes.clone(), offsets, data };
        assert(r.flat() =~= Seq::new(total_size(field_sizes@) as nat, |k: int| 0u32));
        assert forall|i: int| 0 <= i < field_sizes@.len() implies #[trigger] r@[i] == Seq::new(
            field_sizes@[i] as nat,
            |k: int| 0u32,
        ) by {
            r.lemma_field_bounds(i);
            assert(r.field(i) =~= Seq::new(field_sizes@[i] as nat, |k: int| 0u32));
        }
        Ok(r)
    }

    /// The number of fields.
    pub fn field_count(&self) -> (r: usize)
        ensures
            r == self.sizes().len(),
    {
        self.sizes.len()
    }

    /// Overwrites field `index` with `values`.
    pub fn update(&mut self, index: usize, values: &[u32]) -> (r: Result<(), BufferError>)
        requires
            old(self).wf(),
        ensures
            final(self).wf(),
            final(self).sizes() == old(self).sizes(),
            index >= old(self).sizes().len() ==> r == Err::<(), BufferError>(
                BufferError::OutOfRange,
            ),
            index < old(self).sizes().len() && values@.len() != old(self).sizes()[index as int]
                ==> r == Err::<(), BufferError>(BufferError::SizeMismatch),
            index < old(self).sizes().len() && values@.len() == old(self).sizes()[index as int]
                ==> r is Ok,
            r is Ok ==> final(self)@ == old(self)@.update(index as int, values@),
            r is Err ==> *final(self) == *old(self),
    {
        if index >= self.sizes.len() {
            return Err(BufferError::OutOfRange);
        }
        let width = self.sizes[index];
        if values.len() != width as usize {
            return Err(BufferError::SizeMismatch);
        }
        let start = self.offsets[index];
        proof {
            self.lemma_field_bounds(index as int);
        }
        let ghost before = *self;
        let mut k: usize = 0;
        while k < values.len()
            invariant
                before.wf(),
                index < before.sizes().len(),
                start as int == field_offset(before.sizes(), index as int),
                values@.len() == before.sizes()[index as int],
                start + values@.len() <= before.flat().len(),
                k <= values@.len(),
                self.sizes == before.sizes,
                self.offsets == before.offsets,
                self.data@.len() == before.data@.len(),
                forall|j: int|
                    0 <= j < self.data@.len() ==> self.data@[j] == if start <= j < start + k {
                        values@[j - start]
                    } else {
                        before.data@[j]
                    },
            decreases values@.len() - k,
        {
            self.data.set(start + k, values[k]);
            k = k + 1;
        }
        proof {
            let n = before.sizes().len() as int;
            assert forall|f: int| 0 <= f < n implies #[trigger] self.field(f) == (if f
                == index as int {
                values@
            } else {
                before.field(f)
            }) by {
                before.lemma_field_bounds(f);
                if f == index as int {
                    assert(self.field(f) =~= values@);
                } else if f < index as int {
                    lemma_offset_monotone(before.sizes(), f + 1, index as int);
                    assert(self.field(f) =~= before.field(f));
                } else {
                    lemma_offset_monotone(before.sizes(), index as int + 1, f);
                    assert(self.field(f) =~= before.field(f));
                }
            }
            assert(self@ =~= before@.update(index as int, values@));
        }
        Ok(())
    }

    /// A copy of field `index`.
    pub fn get(&self, index: usize) -> (r: Result<Vec<u32>, BufferError>)
        requires
            self.wf(),
        ensures
            index >= self.sizes().len() ==> r == Err::<Vec<u32>, BufferError>(
                BufferError::OutOfRange,
            ),
            index < self.sizes().len() ==> (r matches Ok(v) && v@ == self@[index as int] && v@.len()
                == self.sizes()[index as int]),
    {
        if index >= self.sizes.len() {
            return Err(BufferError::OutOfRange);
        }
        proof {
            self.lemma_field_bounds(index as int);
        }
        let start = self.offsets[index];
        let width = self.sizes[index] as usize;
        let mut out: Vec<u32> = Vec::new();
        let mut k: usize = 0;
        while k < width
            invariant
                self.wf(),
                index < self.sizes().len(),
                start as int == field_offset(self.sizes(), index as int),
                width == self.sizes()[index as int],
                start + width <= self.flat().len(),
                k <= width,
                out@ == self.flat().subrange(start as int, start + k),
            decreases width - k,
        {
            out.push(self.data[start + k]);
            k = k + 1;
            assert(out@ =~= self.flat().subrange(start as int, start + k));
        }
        Ok(out)
    }

    /// The packed scalars, as they are uploaded to the GPU.
    pub fn data(&self) -> (r: &[u32])
        ensures
            r@ == self.flat(),
    {
        self.data.as_slice()
    }
}

/// Writing a field and reading it back at once gives the written values.
pub proof fn lemma_update_then_get(before: UniformBuffer, after: UniformBuffer, index: int, values: Seq<u32>)
    requires
        before.wf(),
        0 <= index < before.sizes().len(),
        values.len() == before.sizes()[index],
        after.sizes() == before.sizes(),
        after@ == before@.update(index, values),
    ensures
        after@[index] == values,
        forall|j: int| 0 <= j < before.sizes().len() && j != index ==> after@[j] == before@[j],
{
}

} // verus!
