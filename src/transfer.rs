use vstd::prelude::*;

verus! {

/// The size of one ranged read and the threshold between single and
/// multipart transfers, in bytes.
pub const PART_SIZE: usize = 8 * 1024 * 1024;

/// Why a transfer could not be carried out.
#[derive(Debug, Clone, Copy, PartialEq, Eq, Structural)]
pub enum TransferError {
    /// The destination buffer is smaller than the object.
    BufferTooSmall,
    /// The parts read back do not match the planned ranges in number or in
    /// length.
    PartMismatch,
}

impl TransferError {
    /// A human-readable description of the error.
    pub fn message(&self) -> (r: String)
        ensures
            r@ == transfer_error_text(*self),
    {
        match self {
            TransferError::BufferTooSmall => "Supplied buffer was too small".to_string(),
            TransferError::PartMismatch => "Ranged read returned parts that do not match the requested ranges".to_string(),
        }
    }
}

pub open spec fn transfer_error_text(e: TransferError) -> Seq<char> {
    match e {
        TransferError::BufferTooSmall => "Supplied buffer was too small"@,
        TransferError::PartMismatch => "Ranged read returned parts that do not match the requested ranges"@,
    }
}

/// How a GET fills its destination buffer.
#[derive(Debug, Clone, Copy, PartialEq, Eq, Structural)]
pub enum GetStrategy {
    /// One GET whose streamed chunks are copied in the order received.
    Single,
    /// A size lookup followed by ranged reads of `PART_SIZE` bytes.
    Ranged,
}

/// How a PUT sends its source buffer.
#[derive(Debug, Clone, Copy, PartialEq, Eq, Structural)]
pub enum PutStrategy {
    /// One PUT of the whole buffer.
    Single,
    /// A multipart upload.
    Multipart,
}

/// Ranged reads are used when the destination can hold more than one part.
pub fn get_strategy(capacity: usize) -> (r: GetStrategy)
    ensures
        r == (if capacity > PART_SIZE { GetStrategy::Ranged } else { GetStrategy::Single }),
{
    if capacity > PART_SIZE {
        GetStrategy::Ranged
    } else {
        GetStrategy::Single
    }
}

/// A multipart upload is used from one part's size on.
pub fn put_strategy(len: usize) -> (r: PutStrategy)
    ensures
        r == (if len < PART_SIZE { PutStrategy::Single } else { PutStrategy::Multipart }),
{
    if len < PART_SIZE {
        PutStrategy::Single
    } else {
        PutStrategy::Multipart
    }
}

/// The number of parts of `part_size` bytes that cover `size` bytes.
pub open spec fn part_count(size: nat, part_size: nat) -> nat
    recommends
        part_size > 0,
{
    if size % part_size == 0 {
        size / part_size
    } else {
        size / part_size + 1
    }
}

/// The half-open byte range of part `i`: full parts, and a last part that
/// ends at `size`.
pub open spec fn part_range(size: nat, part_size: nat, i: nat) -> (int, int) {
    let start: int = (i * part_size) as int;
    let end: int = if (i + 1) * part_size <= size { ((i + 1) * part_size) as int } else { size as int };
    (start, end)
}

proof fn lemma_part_start_below(size: nat, part_size: nat, i: nat)
    requires
        part_size > 0,
        i < part_count(size, part_size),
    ensures
        i * part_size < size,
{
    let q = size / part_size;
    let m = size % part_size;
    vstd::arithmetic::div_mod::lemma_fundamental_div_mod(size as int, part_size as int);
    assert(size == part_size * q + m);
    if m == 0 {
        assert(i + 1 <= q);
        assert((i + 1) * part_size <= q * part_size) by (nonlinear_arith)
            requires
                i + 1 <= q,
        ;
        assert(i * part_size + part_size == (i + 1) * part_size) by (nonlinear_arith);
    } else {
        assert(i <= q);
        assert(i * part_size <= q * part_size) by (nonlinear_arith)
            requires
                i <= q,
        ;
    }
}

proof fn lemma_part_count_reached(size: nat, part_size: nat, i: nat)
    requires
        part_size > 0,
        i * part_size >= size,
        i == 0 || (i - 1) * part_size < size,
    ensures
        i == part_count(size, part_size),
{
    let q = size / part_size;
    let m = size % part_size;
    vstd::arithmetic::div_mod::lemma_fundamental_div_mod(size as int, part_size as int);
    assert(size == part_size * q + m);
    assert(m < part_size);
    if i == 0 {
        assert(size == 0);
    } else {
        assert((i - 1) * part_size + part_size == i * part_size) by (nonlinear_arith)
            requires
                i >= 1,
        ;
        if m == 0 {
            assert(i == q) by (nonlinear_arith)
                requires
                    size == part_size * q,
                    i * part_size >= size,
                    (i - 1) * part_size < size,
                    part_size > 0,
                    i >= 1,
            ;
        } else {
            assert(i == q + 1) by (nonlinear_arith)
                requires
                    size == part_size * q + m,
                    0 < m < part_size,
                    i * part_size >= size,
                    (i - 1) * part_size < size,
                    part_size > 0,
                    i >= 1,
            ;
        }
    }
}

/// The byte ranges that cover an object of `size` bytes, in ascending order:
/// parts of `part_size` bytes, the last of which may be shorter.
pub fn part_ranges(size: usize, part_size: usize) -> (r: Vec<(usize, usize)>)
    requires
        part_size > 0,
    ensures
        r@.len() == part_count(size as nat, part_size as nat),
        forall|i: int|
            0 <= i < r@.len() ==> (r@[i].0 as int, r@[i].1 as int) == part_range(
                size as nat,
                part_size as nat,
                i as nat,
            ),
{
    let mut ranges: Vec<(usize, usize)> = Vec::new();
    let mut start: usize = 0;
    let mut i: usize = 0;
    while start < size
        invariant
            part_size > 0,
            start <= size,
            ranges@.len() == i,
            start < size ==> start as int == i as int * part_size as int,
            start == size ==> i as int * part_size as int >= size,
            i == 0 || (i - 1) * part_size < size,
            forall|j: int|
                0 <= j < i ==> (ranges@[j].0 as int, ranges@[j].1 as int) == part_range(
                    size as nat,
                    part_size as nat,
                    j as nat,
                ),
        decreases size - start,
    {
        let end: usize = if size - start > part_size {
            start + part_size
        } else {
            size
        };
        assert((i + 1) * part_size == i * part_size + part_size) by (nonlinear_arith);
        assert(i <= i * part_size) by (nonlinear_arith)
            requires
                part_size > 0,
        ;
        ranges.push((start, end));
        start = end;
        i = i + 1;
    }
    proof {
        lemma_part_count_reached(size as nat, part_size as nat, i as nat);
    }
    ranges
}

/// The bytes of `chunks`, one after the other.
pub open spec fn concat(chunks: Seq<Seq<u8>>) -> Seq<u8>
    decreases chunks.len(),
{
    if chunks.len() == 0 {
        Seq::empty()
    } else {
        concat(chunks.drop_last()) + chunks.last()
    }
}

proof fn lemma_concat_take_next(chunks: Seq<Seq<u8>>, i: int)
    requires
        0 <= i < chunks.len(),
    ensures
        concat(chunks.take(i + 1)) == concat(chunks.take(i)) + chunks[i],
{
    assert(chunks.take(i + 1).drop_last() =~= chunks.take(i));
}

proof fn lemma_concat_len_monotone(chunks: Seq<Seq<u8>>, i: int, j: int)
    requires
        0 <= i <= j <= chunks.len(),
    ensures
        concat(chunks.take(i)).len() <= concat(chunks.take(j)).len(),
    decreases j - i,
{
    if i < j {
        lemma_concat_take_next(chunks, j - 1);
        lemma_concat_len_monotone(chunks, i, j - 1);
    }
}

/// What `fill_buffer` leaves in a buffer that held `old`: the chunks that fit,
/// in order, and the rest of the buffer as it was.
pub open spec fn filled(old: Seq<u8>, data: Seq<u8>) -> Seq<u8> {
    data + old.subrange(data.len() as int, old.len() as int)
}

/// Copies `chunks` into `dest` one after the other, from offset 0.
///
/// When all of them fit, the result is the number of bytes written. Otherwise
/// the chunks before the first one that does not fit are written, nothing
/// past them, and the result is `BufferTooSmall`.
pub fn fill_buffer(dest: &mut [u8], chunks: &Vec<Vec<u8>>) -> (r: Result<usize, TransferError>)
    ensures
        final(dest)@.len() == old(dest)@.len(),
        r.is_ok() <==> concat(chunks.deep_view()).len() <= old(dest)@.len(),
        r.is_ok() ==> r == Ok::<usize, TransferError>(concat(chunks.deep_view()).len() as usize)
            && final(dest)@ == filled(old(dest)@, concat(chunks.deep_view())),
        r.is_err() ==> r == Err::<usize, TransferError>(TransferError::BufferTooSmall) && exists|k: int|
            0 <= k < chunks@.len() && concat(chunks.deep_view().take(k)).len() <= old(dest)@.len()
                < concat(chunks.deep_view().take(k + 1)).len() && final(dest)@ == filled(
                old(dest)@,
                concat(chunks.deep_view().take(k)),
            ),
{
    let ghost cs = chunks.deep_view();
    let ghost start = dest@;
    let cap = dest.len();
    let mut received: usize = 0;
    let mut i: usize = 0;
    while i < chunks.len()
        invariant
            cs == chunks.deep_view(),
            start == old(dest)@,
            cap == start.len(),
            dest@.len() == cap,
            0 <= i <= chunks@.len(),
            received == concat(cs.take(i as int)).len(),
            received <= cap,
            dest@ == filled(start, concat(cs.take(i as int))),
        decreases chunks@.len() - i,
    {
        let chunk = &chunks[i];
        proof {
            lemma_concat_take_next(cs, i as int);
            assert(cs[i as int] == chunk@);
        }
        if chunk.len() > cap - received {
            proof {
                lemma_concat_len_monotone(cs, i as int + 1, cs.len() as int);
                assert(cs.take(cs.len() as int) =~= cs);
            }
            return Err(TransferError::BufferTooSmall);
        }
        let mut j: usize = 0;
        while j < chunk.len()
            invariant
                cap == start.len(),
                dest@.len() == cap,
                received + chunk@.len() <= cap,
                0 <= j <= chunk@.len(),
                received == concat(cs.take(i as int)).len(),
                dest@ == filled(start, concat(cs.take(i as int)) + chunk@.take(j as int)),
            decreases chunk@.len() - j,
        {
            dest[received + j] = chunk[j];
            proof {
                assert(chunk@.take(j as int + 1) =~= chunk@.take(j as int).push(chunk@[j as int]));
            }
            assert(dest@ =~= filled(start, concat(cs.take(i as int)) + chunk@.take(j as int + 1)));
            j = j + 1;
        }
        assert(chunk@.take(j as int) =~= chunk@);
        received = received + chunk.len();
        i = i + 1;
    }
    assert(cs.take(i as int) =~= cs);
    Ok(received)
}

/// Plans the ranged reads of an object of `size` bytes into a buffer that
/// holds `capacity` bytes. An object larger than the buffer is refused before
/// anything is read.
pub fn plan_ranged_get(size: usize, capacity: usize) -> (r: Result<
    Vec<(usize, usize)>,
    TransferError,
>)
    ensures
        size > capacity ==> r == Err::<Vec<(usize, usize)>, TransferError>(
            TransferError::BufferTooSmall,
        ),
        size <= capacity ==> r.is_ok() && r.unwrap()@.len() == part_count(
            size as nat,
            PART_SIZE as nat,
        ) && forall|i: int|
            0 <= i < r.unwrap()@.len() ==> (r.unwrap()@[i].0 as int, r.unwrap()@[i].1 as int)
                == part_range(size as nat, PART_SIZE as nat, i as nat),
{
    if size > capacity {
        return Err(TransferError::BufferTooSmall);
    }
    Ok(part_ranges(size, PART_SIZE))
}

/// The parts of `data` that the ranges of `part_ranges` select, in order.
pub open spec fn parts_of(data: Seq<u8>, part_size: nat) -> Seq<Seq<u8>> {
    Seq::new(
        part_count(data.len(), part_size),
        |i: int|
            data.subrange(
                part_range(data.len(), part_size, i as nat).0,
                part_range(data.len(), part_size, i as nat).1,
            ),
    )
}

proof fn lemma_parts_cover(size: nat, part_size: nat)
    requires
        part_size > 0,
    ensures
        part_count(size, part_size) * part_size >= size,
{
    let q = size / part_size;
    let m = size % part_size;
    vstd::arithmetic::div_mod::lemma_fundamental_div_mod(size as int, part_size as int);
    if m == 0 {
        assert(q * part_size == part_size * q) by (nonlinear_arith);
    } else {
        assert((q + 1) * part_size == part_size * q + part_size) by (nonlinear_arith);
    }
}

proof fn lemma_concat_parts_prefix(data: Seq<u8>, part_size: nat, k: nat)
    requires
        part_size > 0,
        k <= part_count(data.len(), part_size),
    ensures
        concat(parts_of(data, part_size).take(k as int)) == data.take(
            if k * part_size <= data.len() { (k * part_size) as int } else { data.len() as int },
        ),
    decreases k,
{
    let parts = parts_of(data, part_size);
    if k == 0 {
        assert(parts.take(0) =~= Seq::<Seq<u8>>::empty());
        assert(data.take(0) =~= Seq::<u8>::empty());
    } else {
        let i = (k - 1) as nat;
        lemma_concat_parts_prefix(data, part_size, i);
        lemma_concat_take_next(parts, i as int);
        lemma_part_start_below(data.len(), part_size, i);
        assert((i + 1) * part_size == i * part_size + part_size) by (nonlinear_arith);
        let (a, b) = part_range(data.len(), part_size, i);
        assert(a == i * part_size);
        assert(data.take(a) + data.subrange(a, b) =~= data.take(b));
        if k * part_size > data.len() {
            assert(b == data.len());
        }
    }
}

/// Cutting `data` along the ranges of its parts and copying the parts back
/// one after the other gives `data` again: into any buffer that can hold it,
/// the copy succeeds and leaves `data` at its start.
pub proof fn lemma_parts_round_trip(data: Seq<u8>, part_size: nat, buffer: Seq<u8>)
    requires
        part_size > 0,
        data.len() <= buffer.len(),
    ensures
        concat(parts_of(data, part_size)) == data,
        concat(parts_of(data, part_size)).len() <= buffer.len(),
        filled(buffer, concat(parts_of(data, part_size))).take(data.len() as int) == data,
{
    let parts = parts_of(data, part_size);
    let n = part_count(data.len(), part_size);
    lemma_concat_parts_prefix(data, part_size, n);
    lemma_parts_cover(data.len(), part_size);
    assert(parts.take(n as int) =~= parts);
    assert(data.take(data.len() as int) =~= data);
    assert(filled(buffer, data).take(data.len() as int) =~= data);
}

/// Whether `parts` are as many as the planned ranges of an object of `size`
/// bytes, each as long as its range.
pub open spec fn parts_match_plan(size: nat, part_size: nat, parts: Seq<Seq<u8>>) -> bool {
    &&& parts.len() == part_count(size, part_size)
    &&& forall|i: int|
        0 <= i < parts.len() ==> #[trigger] parts[i].len() == part_range(size, part_size, i as nat).1
            - part_range(size, part_size, i as nat).0
}

proof fn lemma_matching_prefix_len(size: nat, part_size: nat, parts: Seq<Seq<u8>>, j: nat)
    requires
        part_size > 0,
        parts_match_plan(size, part_size, parts),
        j <= parts.len(),
    ensures
        concat(parts.take(j as int)).len() == (if j * part_size <= size {
            j * part_size
        } else {
            size
        }),
    decreases j,
{
    if j == 0 {
        assert(parts.take(0) =~= Seq::<Seq<u8>>::empty());
    } else {
        let i = (j - 1) as nat;
        lemma_matching_prefix_len(size, part_size, parts, i);
        lemma_concat_take_next(parts, i as int);
        lemma_part_start_below(size, part_size, i);
        assert((i + 1) * part_size == i * part_size + part_size) by (nonlinear_arith);
        assert(parts[i as int].len() == part_range(size, part_size, i).1 - part_range(size, part_size, i).0);
    }
}

proof fn lemma_concat_prefix(parts: Seq<Seq<u8>>, j: int, k: int)
    requires
        0 <= j <= k <= parts.len(),
    ensures
        concat(parts.take(j)).len() <= concat(parts.take(k)).len(),
        concat(parts.take(k)).take(concat(parts.take(j)).len() as int) == concat(parts.take(j)),
    decreases k - j,
{
    if j == k {
        assert(concat(parts.take(k)).take(concat(parts.take(k)).len() as int) =~= concat(parts.take(k)));
    } else {
        lemma_concat_prefix(parts, j, k - 1);
        lemma_concat_take_next(parts, k - 1);
        let a = concat(parts.take(k - 1));
        let n = concat(parts.take(j)).len() as int;
        assert((a + parts[k - 1]).take(n) =~= a.take(n));
    }
}

/// Copies the parts of a ranged read of an object of `size` bytes into
/// `dest`, each at the offset of its planned range. The object must fit in
/// `dest`, and the parts must be exactly as many as the planned ranges and
/// each as long as its range; otherwise nothing is written.
pub fn fill_ranges(dest: &mut [u8], size: usize, parts: &Vec<Vec<u8>>) -> (r: Result<usize, TransferError>)
    ensures
        final(dest)@.len() == old(dest)@.len(),
        size > old(dest)@.len() ==> r == Err::<usize, TransferError>(TransferError::BufferTooSmall)
            && final(dest)@ == old(dest)@,
        size <= old(dest)@.len() && !parts_match_plan(size as nat, PART_SIZE as nat, parts.deep_view())
            ==> r == Err::<usize, TransferError>(TransferError::PartMismatch) && final(dest)@ == old(dest)@,
        size <= old(dest)@.len() && parts_match_plan(size as nat, PART_SIZE as nat, parts.deep_view())
            ==> {
            &&& r == Ok::<usize, TransferError>(size)
            &&& final(dest)@ == filled(old(dest)@, concat(parts.deep_view()))
            &&& forall|i: int|
                0 <= i < parts@.len() ==> #[trigger] final(dest)@.subrange(
                    part_range(size as nat, PART_SIZE as nat, i as nat).0,
                    part_range(size as nat, PART_SIZE as nat, i as nat).1,
                ) == parts@[i]@
        },
{
    let ghost ps = parts.deep_view();
    if size > dest.len() {
        return Err(TransferError::BufferTooSmall);
    }
    let ranges = part_ranges(size, PART_SIZE);
    if parts.len() != ranges.len() {
        return Err(TransferError::PartMismatch);
    }
    let mut i: usize = 0;
    while i < parts.len()
        invariant
            ps == parts.deep_view(),
            size <= dest@.len(),
            dest@ == old(dest)@,
            ranges@.len() == parts@.len(),
            ranges@.len() == part_count(size as nat, PART_SIZE as nat),
            forall|j: int|
                0 <= j < ranges@.len() ==> (ranges@[j].0 as int, ranges@[j].1 as int) == part_range(
                    size as nat,
                    PART_SIZE as nat,
                    j as nat,
                ),
            0 <= i <= parts@.len(),
            forall|j: int|
                0 <= j < i ==> #[trigger] ps[j].len() == part_range(size as nat, PART_SIZE as nat, j as nat).1
                    - part_range(size as nat, PART_SIZE as nat, j as nat).0,
        decreases parts@.len() - i,
    {
        let (a, b) = ranges[i];
        proof {
            assert(ps[i as int] == parts@[i as int]@);
            lemma_part_start_below(size as nat, PART_SIZE as nat, i as nat);
        }
        if a > b || parts[i].len() != b - a {
            return Err(TransferError::PartMismatch);
        }
        i = i + 1;
    }
    proof {
        lemma_matching_prefix_len(size as nat, PART_SIZE as nat, ps, ps.len());
        lemma_parts_cover(size as nat, PART_SIZE as nat);
        assert(ps.take(ps.len() as int) =~= ps);
    }
    let ghost start = dest@;
    let r = fill_buffer(dest, parts);
    proof {
        let c = concat(ps);
        assert forall|i: int| 0 <= i < parts@.len() implies #[trigger] dest@.subrange(
            part_range(size as nat, PART_SIZE as nat, i as nat).0,
            part_range(size as nat, PART_SIZE as nat, i as nat).1,
        ) == parts@[i]@ by {
            assert(ps[i] == parts@[i]@);
            lemma_matching_prefix_len(size as nat, PART_SIZE as nat, ps, i as nat);
            lemma_concat_take_next(ps, i);
            lemma_concat_prefix(ps, i + 1, ps.len() as int);
            lemma_part_start_below(size as nat, PART_SIZE as nat, i as nat);
            let pre = concat(ps.take(i));
            let a = part_range(size as nat, PART_SIZE as nat, i as nat).0;
            let b = part_range(size as nat, PART_SIZE as nat, i as nat).1;
            assert(a == pre.len());
            assert(b == a + ps[i].len());
            assert(dest@.subrange(a, b) =~= c.subrange(a, b));
            assert(c.subrange(a, b) =~= (pre + ps[i]).subrange(a, b));
            assert((pre + ps[i]).subrange(a, b) =~= ps[i]);
        }
    }
    r
}

} // verus!
