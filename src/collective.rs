use crate::enums::{MpiOpComplex, MpiOpInt, MpiOpReal, MpiType};
use crate::StrError;
use vstd::prelude::*;

verus! {

/// A buffer was empty: zero-length buffers are rejected before any native call.
pub const EMPTY_BUFFER: StrError = "arrays must not be empty";

/// The destination and source of a reduction differ in length.
pub const SIZE_MISMATCH: StrError = "arrays must have the same size";

/// The destination of a gather does not hold one source buffer per process.
pub const GATHER_SIZE: StrError = "dest.len() must equal the number of processors times orig.len()";

/// The source of a scatter does not hold one destination buffer per process.
pub const SCATTER_SIZE: StrError = "orig.len() must equal the number of processors times dest.len()";

/// A rank or a length is beyond what the native integer width can carry.
pub const OUT_OF_RANGE: StrError = "rank or length does not fit the native integer width";

/// The reduction operator belongs to a family that the element kind does not admit.
pub const OP_KIND: StrError = "operator does not apply to this element kind";

/// True when a rank or a length can be handed to the native boundary.
pub open spec fn fits(x: int) -> bool {
    0 <= x <= i32::MAX
}

/// A reduction operator of one of the three families.
#[derive(Clone, Copy, Debug, PartialEq, Eq, Structural)]
pub enum ReduceOp {
    Int(MpiOpInt),
    Real(MpiOpReal),
    Complex(MpiOpComplex),
}

impl ReduceOp {
    /// The operator tag at the native boundary.
    pub open spec fn code(self) -> i32 {
        match self {
            ReduceOp::Int(o) => o.code(),
            ReduceOp::Real(o) => o.code(),
            ReduceOp::Complex(o) => o.code(),
        }
    }

    /// Integer kinds take the integer operators, real kinds the real ones and
    /// complex kinds the complex ones; raw bytes take none.
    pub open spec fn applies_to(self, kind: MpiType) -> bool {
        match self {
            ReduceOp::Int(_) => kind.is_integer(),
            ReduceOp::Real(_) => kind.is_real(),
            ReduceOp::Complex(_) => kind.is_complex(),
        }
    }

    pub fn n(&self) -> (r: i32)
        ensures
            r == self.code(),
    {
        match self {
            ReduceOp::Int(o) => o.n(),
            ReduceOp::Real(o) => o.n(),
            ReduceOp::Complex(o) => o.n(),
        }
    }

    pub fn applies(&self, kind: MpiType) -> (r: bool)
        ensures
            r == self.applies_to(kind),
    {
        match self {
            ReduceOp::Int(_) => match kind {
                MpiType::I32 | MpiType::I64 | MpiType::U32 | MpiType::U64 => true,
                _ => false,
            },
            ReduceOp::Real(_) => match kind {
                MpiType::F32 | MpiType::F64 => true,
                _ => false,
            },
            ReduceOp::Complex(_) => match kind {
                MpiType::C32 | MpiType::C64 => true,
                _ => false,
            },
        }
    }
}

/// One call of the untyped native boundary, with every rank, count and tag
/// already narrowed to the native integer width. The buffers are not part of
/// it: they are handed over by the caller that makes the call.
#[derive(Clone, Copy, Debug, PartialEq, Eq, Structural)]
pub enum NativeCall {
    Broadcast { sender: i32, n: i32, type_index: i32 },
    Reduce { root: i32, n: i32, type_index: i32, op_index: i32 },
    AllReduce { n: i32, type_index: i32, op_index: i32 },
    Send { n: i32, type_index: i32, to_rank: i32, tag: i32 },
    Receive { n: i32, type_index: i32, from_rank: i32, tag: i32 },
    GatherRoot { root: i32, n: i32, type_index: i32 },
    GatherNonRoot { root: i32, n: i32, type_index: i32 },
    AllGather { n: i32, type_index: i32 },
    ScatterRoot { root: i32, n: i32, type_index: i32 },
    ScatterNonRoot { root: i32, n: i32, type_index: i32 },
}

/// Plans a broadcast of `len` elements of `kind` from rank `sender`.
pub fn broadcast_call(kind: MpiType, sender: usize, len: usize) -> (r: Result<NativeCall, StrError>)
    ensures
        len == 0 ==> r == Err::<NativeCall, StrError>(EMPTY_BUFFER),
        len != 0 && !(fits(sender as int) && fits(len as int)) ==> r == Err::<NativeCall, StrError>(
            OUT_OF_RANGE,
        ),
        len != 0 && fits(sender as int) && fits(len as int) ==> r == Ok::<NativeCall, StrError>(
            NativeCall::Broadcast { sender: sender as i32, n: len as i32, type_index: kind.code() },
        ),
{
    if len == 0 {
        return Err(EMPTY_BUFFER);
    }
    if sender > i32::MAX as usize || len > i32::MAX as usize {
        return Err(OUT_OF_RANGE);
    }
    Ok(NativeCall::Broadcast { sender: sender as i32, n: len as i32, type_index: kind.n() })
}

/// Plans a reduction of `orig_len` elements of `kind` under `op` to rank `root`.
/// Only the root's destination is meaningful after the native call; every
/// member still passes a destination of the source's length.
pub fn reduce_call(kind: MpiType, op: ReduceOp, root: usize, dest_len: usize, orig_len: usize) -> (r:
    Result<NativeCall, StrError>)
    ensures
        dest_len != orig_len ==> r == Err::<NativeCall, StrError>(SIZE_MISMATCH),
        dest_len == orig_len && orig_len == 0 ==> r == Err::<NativeCall, StrError>(EMPTY_BUFFER),
        dest_len == orig_len && orig_len != 0 && !op.applies_to(kind) ==> r == Err::<
            NativeCall,
            StrError,
        >(OP_KIND),
        dest_len == orig_len && orig_len != 0 && op.applies_to(kind) && !(fits(root as int) && fits(
            orig_len as int,
        )) ==> r == Err::<NativeCall, StrError>(OUT_OF_RANGE),
        dest_len == orig_len && orig_len != 0 && op.applies_to(kind) && fits(root as int) && fits(
            orig_len as int,
        ) ==> r == Ok::<NativeCall, StrError>(
            NativeCall::Reduce {
                root: root as i32,
                n: orig_len as i32,
                type_index: kind.code(),
                op_index: op.code(),
            },
        ),
{
    if dest_len != orig_len {
        return Err(SIZE_MISMATCH);
    }
    if orig_len == 0 {
        return Err(EMPTY_BUFFER);
    }
    if !op.applies(kind) {
        return Err(OP_KIND);
    }
    if root > i32::MAX as usize || orig_len > i32::MAX as usize {
        return Err(OUT_OF_RANGE);
    }
    Ok(
        NativeCall::Reduce {
            root: root as i32,
            n: orig_len as i32,
            type_index: kind.n(),
            op_index: op.n(),
        },
    )
}

/// Plans a reduction of `orig_len` elements of `kind` under `op` whose result
/// reaches every member.
pub fn allreduce_call(kind: MpiType, op: ReduceOp, dest_len: usize, orig_len: usize) -> (r: Result<
    NativeCall,
    StrError,
>)
    ensures
        dest_len != orig_len ==> r == Err::<NativeCall, StrError>(SIZE_MISMATCH),
        dest_len == orig_len && orig_len == 0 ==> r == Err::<NativeCall, StrError>(EMPTY_BUFFER),
        dest_len == orig_len && orig_len != 0 && !op.applies_to(kind) ==> r == Err::<
            NativeCall,
            StrError,
        >(OP_KIND),
        dest_len == orig_len && orig_len != 0 && op.applies_to(kind) && !fits(orig_len as int)
            ==> r == Err::<NativeCall, StrError>(OUT_OF_RANGE),
        dest_len == orig_len && orig_len != 0 && op.applies_to(kind) && fits(orig_len as int) ==> r
            == Ok::<NativeCall, StrError>(
            NativeCall::AllReduce { n: orig_len as i32, type_index: kind.code(), op_index: op.code() },
        ),
{
    if dest_len != orig_len {
        return Err(SIZE_MISMATCH);
    }
    if orig_len == 0 {
        return Err(EMPTY_BUFFER);
    }
    if !op.applies(kind) {
        return Err(OP_KIND);
    }
    if orig_len > i32::MAX as usize {
        return Err(OUT_OF_RANGE);
    }
    Ok(NativeCall::AllReduce { n: orig_len as i32, type_index: kind.n(), op_index: op.n() })
}

/// Plans a blocking send of `len` elements of `kind` to rank `to_rank` with
/// message tag `tag`.
pub fn send_call(kind: MpiType, len: usize, to_rank: usize, tag: i32) -> (r: Result<
    NativeCall,
    StrError,
>)
    ensures
        len == 0 ==> r == Err::<NativeCall, StrError>(EMPTY_BUFFER),
        len != 0 && !(fits(len as int) && fits(to_rank as int)) ==> r == Err::<NativeCall, StrError>(
            OUT_OF_RANGE,
        ),
        len != 0 && fits(len as int) && fits(to_rank as int) ==> r == Ok::<NativeCall, StrError>(
            NativeCall::Send {
                n: len as i32,
                type_index: kind.code(),
                to_rank: to_rank as i32,
                tag: tag,
            },
        ),
{
    if len == 0 {
        return Err(EMPTY_BUFFER);
    }
    if len > i32::MAX as usize || to_rank > i32::MAX as usize {
        return Err(OUT_OF_RANGE);
    }
    Ok(NativeCall::Send { n: len as i32, type_index: kind.n(), to_rank: to_rank as i32, tag })
}

/// Plans a blocking receive of `len` elements of `kind`. A negative
/// `from_rank` accepts any source and a negative `tag` any tag; both are
/// handed on unchanged.
pub fn receive_call(kind: MpiType, len: usize, from_rank: i32, tag: i32) -> (r: Result<
    NativeCall,
    StrError,
>)
    ensures
        len == 0 ==> r == Err::<NativeCall, StrError>(EMPTY_BUFFER),
        len != 0 && !fits(len as int) ==> r == Err::<NativeCall, StrError>(OUT_OF_RANGE),
        len != 0 && fits(len as int) ==> r == Ok::<NativeCall, StrError>(
            NativeCall::Receive {
                n: len as i32,
                type_index: kind.code(),
                from_rank: from_rank,
                tag: tag,
            },
        ),
{
    if len == 0 {
        return Err(EMPTY_BUFFER);
    }
    if len > i32::MAX as usize {
        return Err(OUT_OF_RANGE);
    }
    Ok(NativeCall::Receive { n: len as i32, type_index: kind.n(), from_rank, tag })
}

/// True when `total` is `group_size` times `chunk`, computed without overflow.
fn holds_one_chunk_per_member(total: usize, group_size: usize, chunk: usize) -> (r: bool)
    ensures
        r == (total as int == group_size as int * chunk as int),
{
    match group_size.checked_mul(chunk) {
        Some(p) => p == total,
        None => false,
    }
}

/// Plans the root's side of a gather: every member sends `orig_len` elements of
/// `kind`, and the root's destination of `dest_len` elements receives them in
/// rank order.
pub fn gather_root_call(
    kind: MpiType,
    root: usize,
    dest_len: usize,
    orig_len: usize,
    group_size: usize,
) -> (r: Result<NativeCall, StrError>)
    ensures
        dest_len as int != group_size as int * orig_len as int ==> r == Err::<NativeCall, StrError>(
            GATHER_SIZE,
        ),
        dest_len as int == group_size as int * orig_len as int && orig_len == 0 ==> r == Err::<
            NativeCall,
            StrError,
        >(EMPTY_BUFFER),
        dest_len as int == group_size as int * orig_len as int && orig_len != 0 && !(fits(
            root as int,
        ) && fits(orig_len as int)) ==> r == Err::<NativeCall, StrError>(OUT_OF_RANGE),
        dest_len as int == group_size as int * orig_len as int && orig_len != 0 && fits(root as int)
            && fits(orig_len as int) ==> r == Ok::<NativeCall, StrError>(
            NativeCall::GatherRoot { root: root as i32, n: orig_len as i32, type_index: kind.code() },
        ),
{
    if !holds_one_chunk_per_member(dest_len, group_size, orig_len) {
        return Err(GATHER_SIZE);
    }
    if orig_len == 0 {
        return Err(EMPTY_BUFFER);
    }
    if root > i32::MAX as usize || orig_len > i32::MAX as usize {
        return Err(OUT_OF_RANGE);
    }
    Ok(NativeCall::GatherRoot { root: root as i32, n: orig_len as i32, type_index: kind.n() })
}

/// Plans the side of a gather of a member other than the root: it sends
/// `orig_len` elements of `kind` and receives nothing.
pub fn gather_call(kind: MpiType, root: usize, orig_len: usize) -> (r: Result<NativeCall, StrError>)
    ensures
        orig_len == 0 ==> r == Err::<NativeCall, StrError>(EMPTY_BUFFER),
        orig_len != 0 && !(fits(root as int) && fits(orig_len as int)) ==> r == Err::<
            NativeCall,
            StrError,
        >(OUT_OF_RANGE),
        orig_len != 0 && fits(root as int) && fits(orig_len as int) ==> r == Ok::<
            NativeCall,
            StrError,
        >(NativeCall::GatherNonRoot { root: root as i32, n: orig_len as i32, type_index: kind.code() }),
{
    if orig_len == 0 {
        return Err(EMPTY_BUFFER);
    }
    if root > i32::MAX as usize || orig_len > i32::MAX as usize {
        return Err(OUT_OF_RANGE);
    }
    Ok(NativeCall::GatherNonRoot { root: root as i32, n: orig_len as i32, type_index: kind.n() })
}

/// Plans a gather whose concatenation in rank order reaches every member.
pub fn allgather_call(kind: MpiType, dest_len: usize, orig_len: usize, group_size: usize) -> (r:
    Result<NativeCall, StrError>)
    ensures
        dest_len as int != group_size as int * orig_len as int ==> r == Err::<NativeCall, StrError>(
            GATHER_SIZE,
        ),
        dest_len as int == group_size as int * orig_len as int && orig_len == 0 ==> r == Err::<
            NativeCall,
            StrError,
        >(EMPTY_BUFFER),
        dest_len as int == group_size as int * orig_len as int && orig_len != 0 && !fits(
            orig_len as int,
        ) ==> r == Err::<NativeCall, StrError>(OUT_OF_RANGE),
        dest_len as int == group_size as int * orig_len as int && orig_len != 0 && fits(
            orig_len as int,
        ) ==> r == Ok::<NativeCall, StrError>(
            NativeCall::AllGather { n: orig_len as i32, type_index: kind.code() },
        ),
{
    if !holds_one_chunk_per_member(dest_len, group_size, orig_len) {
        return Err(GATHER_SIZE);
    }
    if orig_len == 0 {
        return Err(EMPTY_BUFFER);
    }
    if orig_len > i32::MAX as usize {
        return Err(OUT_OF_RANGE);
    }
    Ok(NativeCall::AllGather { n: orig_len as i32, type_index: kind.n() })
}

/// Plans the root's side of a scatter: the root's source of `orig_len`
/// elements is cut into one chunk of `dest_len` elements per member, in rank
/// order.
pub fn scatter_root_call(
    kind: MpiType,
    root: usize,
    dest_len: usize,
    orig_len: usize,
    group_size: usize,
) -> (r: Result<NativeCall, StrError>)
    ensures
        orig_len as int != group_size as int * dest_len as int ==> r == Err::<NativeCall, StrError>(
            SCATTER_SIZE,
        ),
        orig_len as int == group_size as int * dest_len as int && dest_len == 0 ==> r == Err::<
            NativeCall,
            StrError,
        >(EMPTY_BUFFER),
        orig_len as int == group_size as int * dest_len as int && dest_len != 0 && !(fits(
            root as int,
        ) && fits(dest_len as int)) ==> r == Err::<NativeCall, StrError>(OUT_OF_RANGE),
        orig_len as int == group_size as int * dest_len as int && dest_len != 0 && fits(root as int)
            && fits(dest_len as int) ==> r == Ok::<NativeCall, StrError>(
            NativeCall::ScatterRoot { root: root as i32, n: dest_len as i32, type_index: kind.code() },
        ),
{
    if !holds_one_chunk_per_member(orig_len, group_size, dest_len) {
        return Err(SCATTER_SIZE);
    }
    if dest_len == 0 {
        return Err(EMPTY_BUFFER);
    }
    if root > i32::MAX as usize || dest_len > i32::MAX as usize {
        return Err(OUT_OF_RANGE);
    }
    Ok(NativeCall::ScatterRoot { root: root as i32, n: dest_len as i32, type_index: kind.n() })
}

/// Plans the side of a scatter of a member other than the root: it receives
/// `dest_len` elements of `kind`.
pub fn scatter_call(kind: MpiType, root: usize, dest_len: usize) -> (r: Result<NativeCall, StrError>)
    ensures
        dest_len == 0 ==> r == Err::<NativeCall, StrError>(EMPTY_BUFFER),
        dest_len != 0 && !(fits(root as int) && fits(dest_len as int)) ==> r == Err::<
            NativeCall,
            StrError,
        >(OUT_OF_RANGE),
        dest_len != 0 && fits(root as int) && fits(dest_len as int) ==> r == Ok::<
            NativeCall,
            StrError,
        >(NativeCall::ScatterNonRoot { root: root as i32, n: dest_len as i32, type_index: kind.code() }),
{
    if dest_len == 0 {
        return Err(EMPTY_BUFFER);
    }
    if root > i32::MAX as usize || dest_len > i32::MAX as usize {
        return Err(OUT_OF_RANGE);
    }
    Ok(NativeCall::ScatterNonRoot { root: root as i32, n: dest_len as i32, type_index: kind.n() })
}

/// Narrows the global ranks of a subset group to the native width, keeping
/// their order: the rank at position `i` becomes local rank `i` of the new
/// group.
pub fn subset_ranks(ranks: &[usize]) -> (r: Result<Vec<i32>, StrError>)
    ensures
        r is Ok <==> fits(ranks@.len() as int) && forall|i: int|
            0 <= i < ranks@.len() ==> fits(#[trigger] ranks@[i] as int),
        r matches Ok(v) ==> v@.len() == ranks@.len() && forall|i: int|
            0 <= i < ranks@.len() ==> v@[i] as int == #[trigger] ranks@[i] as int,
        r matches Err(e) ==> e == OUT_OF_RANGE,
{
    if ranks.len() > i32::MAX as usize {
        return Err(OUT_OF_RANGE);
    }
    let mut out: Vec<i32> = Vec::with_capacity(ranks.len());
    let mut i: usize = 0;
    while i < ranks.len()
        invariant
            i <= ranks@.len(),
            out@.len() == i,
            forall|j: int| 0 <= j < i ==> fits(#[trigger] ranks@[j] as int),
            forall|j: int| 0 <= j < i ==> out@[j] as int == #[trigger] ranks@[j] as int,
        decreases ranks@.len() - i,
    {
        if ranks[i] > i32::MAX as usize {
            return Err(OUT_OF_RANGE);
        }
        out.push(ranks[i] as i32);
        i = i + 1;
    }
    Ok(out)
}

/// The buffers of the members concatenated in rank order: what a gather leaves
/// at the root and an all-gather at every member.
pub open spec fn gathered<T>(chunks: Seq<Seq<T>>) -> Seq<T>
    decreases chunks.len(),
{
    if chunks.len() == 0 {
        Seq::empty()
    } else {
        gathered(chunks.drop_last()) + chunks.last()
    }
}

/// Chunk `i` of length `n` of a buffer, elements `[i·n, (i+1)·n)`: what a
/// scatter hands to rank `i`, and where rank `i`'s buffer lands in a gather.
pub open spec fn chunk<T>(buf: Seq<T>, n: int, i: int) -> Seq<T> {
    buf.subrange(i * n, (i + 1) * n)
}

/// The chunks of length `n` of a buffer, one per member of a group of `g`.
pub open spec fn chunks_of<T>(buf: Seq<T>, n: int, g: nat) -> Seq<Seq<T>> {
    Seq::new(g, |i: int| chunk(buf, n, i))
}

/// Gathering buffers of one length `n` gives `g·n` elements, whose chunk `i` is
/// the buffer of rank `i`: a scatter of the gathered data with the same chunk
/// length hands every rank its own buffer back, and after an all-gather chunk
/// `i` of every member's destination is rank `i`'s source.
pub proof fn lemma_gather_then_scatter<T>(chunks: Seq<Seq<T>>, n: int)
    requires
        n >= 0,
        forall|i: int| 0 <= i < chunks.len() ==> (#[trigger] chunks[i]).len() == n,
    ensures
        gathered(chunks).len() == chunks.len() * n,
        forall|i: int| 0 <= i < chunks.len() ==> #[trigger] chunk(gathered(chunks), n, i) == chunks[i],
    decreases chunks.len(),
{
    if chunks.len() > 0 {
        let init = chunks.drop_last();
        let g = chunks.len() as int;
        lemma_gather_then_scatter(init, n);
        assert(gathered(chunks) == gathered(init) + chunks.last());
        assert((g - 1) * n + n == g * n) by (nonlinear_arith);
        assert forall|i: int| 0 <= i < g implies #[trigger] chunk(gathered(chunks), n, i)
            == chunks[i] by {
            if i < g - 1 {
                assert((i + 1) * n <= (g - 1) * n) by (nonlinear_arith)
                    requires
                        i + 1 <= g - 1,
                        n >= 0,
                ;
                assert(0 <= i * n) by (nonlinear_arith)
                    requires
                        0 <= i,
                        n >= 0,
                ;
                assert(i * n + n == (i + 1) * n) by (nonlinear_arith);
                assert(chunk(gathered(init), n, i) == init[i]);
                assert(chunk(gathered(chunks), n, i) =~= chunk(gathered(init), n, i));
            } else {
                assert(i * n + n == (i + 1) * n) by (nonlinear_arith);
                assert(chunk(gathered(chunks), n, i) =~= chunks.last());
            }
        }
    }
}

/// Scattering a buffer of `g·n` elements in chunks of `n` and gathering the
/// chunks back gives the buffer.
pub proof fn lemma_scatter_then_gather<T>(buf: Seq<T>, n: nat, g: nat)
    requires
        buf.len() == g * n,
    ensures
        gathered(chunks_of(buf, n as int, g)) == buf,
{
    let cs = chunks_of(buf, n as int, g);
    assert forall|i: int| 0 <= i < cs.len() implies (#[trigger] cs[i]).len() == n by {
        assert(0 <= i * n && (i + 1) * n <= g * n && (i + 1) * n == i * n + n) by (nonlinear_arith)
            requires
                0 <= i < g,
        ;
    }
    lemma_gather_then_scatter(cs, n as int);
    let gs = gathered(cs);
    assert forall|k: int| 0 <= k < buf.len() implies gs[k] == buf[k] by {
        let i = k / n as int;
        let j = k % n as int;
        assert(n > 0) by (nonlinear_arith)
            requires
                0 <= k < g * n,
        ;
        assert(k == i * n + j && 0 <= j < n && 0 <= i) by (nonlinear_arith)
            requires
                n > 0,
                i == k / n as int,
                j == k % n as int,
                k >= 0,
        ;
        assert(i < g) by (nonlinear_arith)
            requires
                k == i * n + j,
                0 <= j,
                k < g * n,
                n > 0,
        ;
        assert(i * n + n == (i + 1) * n && (i + 1) * n <= g * n) by (nonlinear_arith)
            requires
                0 <= i < g,
        ;
        assert(chunk(gs, n as int, i) == cs[i]);
        assert(chunk(gs, n as int, i)[j] == gs[k]);
        assert(cs[i] == chunk(buf, n as int, i));
        assert(chunk(buf, n as int, i)[j] == buf[k]);
    }
    assert(gs =~= buf);
}

} // verus!
