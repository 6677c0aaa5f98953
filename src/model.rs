//! What the memory calls and the addition kernel do to device memory, and
//! the laws that the calls of this library obey under it.
//!
//! Device memory maps the address of each live allocation to its words. The
//! calls of one stream take effect in the order in which they are issued.
use vstd::prelude::*;

use crate::arith::add_call;
use crate::memory::{release_calls, CudaVec, WORD_BYTES};
use crate::native::NativeCall;
use crate::params::LweDimension;
use crate::stream::{bytes, fits, CudaStream};

verus! {

/// Live allocations and their contents.
pub type DeviceMemory = Map<usize, Seq<u64>>;

/// A word whose every byte is the low byte of `value`: what a fill leaves.
pub open spec fn fill_word(value: u64) -> u64 {
    ((value % 256) * 0x0101_0101_0101_0101) as u64
}

/// Sum of two words, modulo 2^64.
pub open spec fn wrapping_add(a: u64, b: u64) -> u64 {
    ((a + b) % 0x1_0000_0000_0000_0000) as u64
}

/// Number of words touched by a call that moves `size` bytes.
pub open spec fn words(size: u64) -> nat {
    (size / WORD_BYTES) as nat
}

/// Number of words of `count` ciphertexts of dimension `lwe_dimension`.
pub open spec fn entries(lwe_dimension: u32, count: u32) -> nat {
    ((lwe_dimension + 1) * count) as nat
}

/// `s` with its first `n` words replaced by those of `front`.
pub open spec fn overwrite(s: Seq<u64>, n: nat, front: spec_fn(int) -> u64) -> Seq<u64> {
    Seq::new(s.len(), |i: int| if i < n { front(i) } else { s[i] })
}

/// Device memory after `call`, where `host` is the host buffer that the call
/// reads; `None` where the call does not apply to `mem` or is a kernel whose
/// effect is not described here.
pub open spec fn apply(mem: DeviceMemory, call: NativeCall, host: Seq<u64>) -> Option<DeviceMemory> {
    match call {
        NativeCall::SynchronizeStream { .. } => Some(mem),
        NativeCall::SynchronizeDevice { .. } => Some(mem),
        NativeCall::MemsetAsync { dest, value, size, .. } => {
            if mem.contains_key(dest) && words(size) <= mem[dest].len() {
                Some(mem.insert(dest, overwrite(mem[dest], words(size), |i: int| fill_word(value))))
            } else {
                None
            }
        },
        NativeCall::MemcpyToGpu { dest, size, .. } => {
            if mem.contains_key(dest) && words(size) <= mem[dest].len() && words(size)
                <= host.len() {
                Some(mem.insert(dest, overwrite(mem[dest], words(size), |i: int| host[i])))
            } else {
                None
            }
        },
        NativeCall::MemcpyGpuToGpu { dest, src, size, .. } => {
            if mem.contains_key(dest) && mem.contains_key(src) && words(size) <= mem[dest].len()
                && words(size) <= mem[src].len() {
                Some(mem.insert(dest, overwrite(mem[dest], words(size), |i: int| mem[src][i])))
            } else {
                None
            }
        },
        NativeCall::AddLweCiphertextVector {
            lwe_array_out,
            lwe_array_in_1,
            lwe_array_in_2,
            input_lwe_dimension,
            input_lwe_ciphertext_count,
            ..
        } => {
            let n = entries(input_lwe_dimension, input_lwe_ciphertext_count);
            if mem.contains_key(lwe_array_out) && mem.contains_key(lwe_array_in_1)
                && mem.contains_key(lwe_array_in_2) && n <= mem[lwe_array_out].len() && n
                <= mem[lwe_array_in_1].len() && n <= mem[lwe_array_in_2].len() {
                Some(
                    mem.insert(
                        lwe_array_out,
                        overwrite(
                            mem[lwe_array_out],
                            n,
                            |i: int| wrapping_add(mem[lwe_array_in_1][i], mem[lwe_array_in_2][i]),
                        ),
                    ),
                )
            } else {
                None
            }
        },
        NativeCall::Free { ptr, .. } => {
            if mem.contains_key(ptr) {
                Some(mem.remove(ptr))
            } else {
                None
            }
        },
        _ => None,
    }
}

/// The words that a copy to the host hands back.
pub open spec fn read_back(mem: DeviceMemory, call: NativeCall) -> Seq<u64> {
    match call {
        NativeCall::MemcpyToCpu { src, size, .. } => mem[src].subrange(0, words(size) as int),
        _ => Seq::empty(),
    }
}

/// Device memory after the calls of `calls`, one after the other, none of
/// which reads the host.
pub open spec fn run(mem: DeviceMemory, calls: Seq<NativeCall>) -> Option<DeviceMemory>
    decreases calls.len(),
{
    if calls.len() == 0 {
        Some(mem)
    } else {
        match apply(mem, calls[0], Seq::empty()) {
            Some(next) => run(next, calls.drop_first()),
            None => None,
        }
    }
}

proof fn lemma_bytes_words(n: nat)
    requires
        n <= u32::MAX,
    ensures
        words(bytes(n)) == n,
{
}

/// Values copied to a device buffer and then read back, after the stream is
/// synchronized, are the values written.
pub proof fn lemma_round_trip(
    mem: DeviceMemory,
    stream: CudaStream,
    buffer: CudaVec,
    data: Seq<u64>,
)
    requires
        buffer.wf(),
        mem.contains_key(buffer.addr()),
        mem[buffer.addr()].len() == buffer.size(),
        fits(buffer.size(), data.len()),
    ensures
        ({
            let write = NativeCall::MemcpyToGpu {
                dest: buffer.addr(),
                size: bytes(data.len()),
                stream: stream.handle(),
            };
            let sync = NativeCall::SynchronizeStream { stream: stream.handle() };
            let read = NativeCall::MemcpyToCpu {
                src: buffer.addr(),
                size: bytes(buffer.size()),
                stream: stream.handle(),
            };
            &&& apply(mem, write, data) is Some
            &&& apply(apply(mem, write, data).unwrap(), sync, Seq::empty()) is Some
            &&& read_back(
                apply(apply(mem, write, data).unwrap(), sync, Seq::empty()).unwrap(),
                read,
            ).subrange(0, data.len() as int) == data
        }),
{
    buffer.lemma_size_bound();
    lemma_bytes_words(data.len());
    lemma_bytes_words(buffer.size());
    let write = NativeCall::MemcpyToGpu {
        dest: buffer.addr(),
        size: bytes(data.len()),
        stream: stream.handle(),
    };
    let m1 = apply(mem, write, data).unwrap();
    let read = NativeCall::MemcpyToCpu {
        src: buffer.addr(),
        size: bytes(buffer.size()),
        stream: stream.handle(),
    };
    assert(read_back(m1, read).subrange(0, data.len() as int) =~= data);
}


/// On one stream, a fill of `acc` with `x` followed by the in-place addition
/// of a buffer holding `c` in every word leaves, after a synchronization,
/// the fill word of `x` plus `c` in each entry of the batch; where every byte
/// of `x` is the same (zero, `u64::MAX`), that is `x + c`.
pub proof fn lemma_fill_then_add(
    mem: DeviceMemory,
    stream: CudaStream,
    acc: CudaVec,
    constant: CudaVec,
    x: u64,
    c: u64,
    lwe_dimension: LweDimension,
    num_samples: u32,
)
    requires
        acc.wf(),
        mem.contains_key(acc.addr()),
        mem.contains_key(constant.addr()),
        acc.addr() != constant.addr(),
        mem[acc.addr()].len() == acc.size(),
        entries(lwe_dimension.0 as u32, num_samples) <= acc.size(),
        entries(lwe_dimension.0 as u32, num_samples) <= mem[constant.addr()].len(),
        forall|i: int| 0 <= i < entries(lwe_dimension.0 as u32, num_samples)
            ==> mem[constant.addr()][i] == c,
    ensures
        ({
            let calls = seq![
                NativeCall::MemsetAsync {
                    dest: acc.addr(),
                    value: x,
                    size: bytes(acc.size()),
                    stream: stream.handle(),
                },
                add_call(
                    stream.handle(),
                    acc.addr(),
                    acc.addr(),
                    constant.addr(),
                    lwe_dimension,
                    num_samples,
                ),
                NativeCall::SynchronizeStream { stream: stream.handle() },
            ];
            let n = entries(lwe_dimension.0 as u32, num_samples);
            &&& run(mem, calls) is Some
            &&& forall|i: int| 0 <= i < n
                ==> run(mem, calls).unwrap()[acc.addr()][i] == wrapping_add(fill_word(x), c)
            &&& fill_word(x) == x ==> forall|i: int| 0 <= i < n
                ==> run(mem, calls).unwrap()[acc.addr()][i] == wrapping_add(x, c)
        }),
{
    reveal_with_fuel(run, 4);
    acc.lemma_size_bound();
    lemma_bytes_words(acc.size());
    let fill = NativeCall::MemsetAsync {
        dest: acc.addr(),
        value: x,
        size: bytes(acc.size()),
        stream: stream.handle(),
    };
    let add = add_call(
        stream.handle(),
        acc.addr(),
        acc.addr(),
        constant.addr(),
        lwe_dimension,
        num_samples,
    );
    let sync = NativeCall::SynchronizeStream { stream: stream.handle() };
    let calls = seq![fill, add, sync];
    let m1 = apply(mem, fill, Seq::empty()).unwrap();
    let m2 = apply(m1, add, Seq::empty()).unwrap();
    assert(calls.drop_first() =~= seq![add, sync]);
    assert(seq![add, sync].drop_first() =~= seq![sync]);
    assert(seq![sync].drop_first() =~= Seq::<NativeCall>::empty());
    assert(run(m2, seq![sync]) == Some(m2));
    assert(run(mem, calls) == Some(m2));
}

/// The in-place addition leaves in the accumulator what the out-of-place
/// addition of a copy of the accumulator and the same input leaves in a
/// fresh buffer, entry by entry.
pub proof fn lemma_add_assign_matches_add(
    mem: DeviceMemory,
    stream: CudaStream,
    acc: CudaVec,
    acc_copy: CudaVec,
    input: CudaVec,
    out: CudaVec,
    lwe_dimension: LweDimension,
    num_samples: u32,
)
    requires
        mem.contains_key(acc.addr()),
        mem.contains_key(acc_copy.addr()),
        mem.contains_key(input.addr()),
        mem.contains_key(out.addr()),
        entries(lwe_dimension.0 as u32, num_samples) <= mem[acc.addr()].len(),
        entries(lwe_dimension.0 as u32, num_samples) <= mem[acc_copy.addr()].len(),
        entries(lwe_dimension.0 as u32, num_samples) <= mem[input.addr()].len(),
        entries(lwe_dimension.0 as u32, num_samples) <= mem[out.addr()].len(),
        forall|i: int| 0 <= i < entries(lwe_dimension.0 as u32, num_samples)
            ==> mem[acc_copy.addr()][i] == mem[acc.addr()][i],
    ensures
        ({
            let in_place = add_call(
                stream.handle(),
                acc.addr(),
                acc.addr(),
                input.addr(),
                lwe_dimension,
                num_samples,
            );
            let out_of_place = add_call(
                stream.handle(),
                out.addr(),
                acc_copy.addr(),
                input.addr(),
                lwe_dimension,
                num_samples,
            );
            &&& apply(mem, in_place, Seq::empty()) is Some
            &&& apply(mem, out_of_place, Seq::empty()) is Some
            &&& forall|i: int| 0 <= i < entries(lwe_dimension.0 as u32, num_samples)
                ==> apply(mem, in_place, Seq::empty()).unwrap()[acc.addr()][i] == apply(
                mem,
                out_of_place,
                Seq::empty(),
            ).unwrap()[out.addr()][i]
        }),
{
}

/// Releasing a buffer synchronizes its whole device first, then frees it:
/// the buffer is gone, and every other live buffer keeps its contents.
pub proof fn lemma_release_keeps_others(mem: DeviceMemory, buffer: CudaVec)
    requires
        mem.contains_key(buffer.addr()),
    ensures
        release_calls(buffer.addr(), buffer.home())[0] == (NativeCall::SynchronizeDevice {
            gpu_index: buffer.home().index(),
        }),
        run(mem, release_calls(buffer.addr(), buffer.home())) is Some,
        !run(mem, release_calls(buffer.addr(), buffer.home())).unwrap().contains_key(
            buffer.addr(),
        ),
        forall|a: usize|
            a != buffer.addr() ==> (#[trigger] run(
                mem,
                release_calls(buffer.addr(), buffer.home()),
            ).unwrap().contains_key(a) == mem.contains_key(a) && (mem.contains_key(a) ==> run(
                mem,
                release_calls(buffer.addr(), buffer.home()),
            ).unwrap()[a] == mem[a])),
{
    reveal_with_fuel(run, 3);
    let calls = release_calls(buffer.addr(), buffer.home());
    let free = calls[1];
    assert(calls.drop_first() =~= seq![free]);
    assert(seq![free].drop_first() =~= Seq::<NativeCall>::empty());
    assert(run(mem, calls) == Some(mem.remove(buffer.addr())));
}


/// The calls that release `buffers`, one after the other.
pub open spec fn release_all(buffers: Seq<CudaVec>) -> Seq<NativeCall>
    decreases buffers.len(),
{
    if buffers.len() == 0 {
        Seq::empty()
    } else {
        release_calls(buffers[0].addr(), buffers[0].home()) + release_all(buffers.drop_first())
    }
}

proof fn lemma_run_append(mem: DeviceMemory, a: Seq<NativeCall>, b: Seq<NativeCall>)
    ensures
        run(mem, a + b) == match run(mem, a) {
            Some(m) => run(m, b),
            None => None,
        },
    decreases a.len(),
{
    if a.len() == 0 {
        assert(a + b =~= b);
    } else {
        assert((a + b).drop_first() =~= a.drop_first() + b);
        match apply(mem, a[0], Seq::empty()) {
            Some(next) => lemma_run_append(next, a.drop_first(), b),
            None => {},
        }
    }
}

/// Releasing many live buffers, each after a synchronization of its device,
/// frees exactly those buffers: every other live buffer keeps its contents.
pub proof fn lemma_release_all_keeps_others(mem: DeviceMemory, buffers: Seq<CudaVec>)
    requires
        forall|i: int| 0 <= i < buffers.len() ==> mem.contains_key(#[trigger] buffers[i].addr()),
        forall|i: int, j: int|
            0 <= i < j < buffers.len() ==> buffers[i].addr() != buffers[j].addr(),
    ensures
        run(mem, release_all(buffers)) is Some,
        forall|a: usize|
            #[trigger] run(mem, release_all(buffers)).unwrap().contains_key(a) == (
            mem.contains_key(a) && forall|i: int| 0 <= i < buffers.len() ==> buffers[i].addr() != a),
        forall|a: usize|
            #[trigger] run(mem, release_all(buffers)).unwrap().contains_key(a) ==> run(
                mem,
                release_all(buffers),
            ).unwrap()[a] == mem[a],
    decreases buffers.len(),
{
    if buffers.len() == 0 {
        assert(run(mem, release_all(buffers)) == Some(mem));
    } else {
        let first = buffers[0];
        let rest = buffers.drop_first();
        lemma_release_keeps_others(mem, first);
        let calls = release_calls(first.addr(), first.home());
        let m1 = run(mem, calls).unwrap();
        assert(m1 == mem.remove(first.addr())) by {
            assert(m1 =~= mem.remove(first.addr()));
        }
        assert forall|i: int| 0 <= i < rest.len() implies m1.contains_key(
            #[trigger] rest[i].addr(),
        ) by {
            assert(rest[i] == buffers[i + 1]);
        }
        assert forall|i: int, j: int| 0 <= i < j < rest.len() implies rest[i].addr()
            != rest[j].addr() by {
            assert(rest[i] == buffers[i + 1]);
            assert(rest[j] == buffers[j + 1]);
        }
        lemma_release_all_keeps_others(m1, rest);
        lemma_run_append(mem, calls, release_all(rest));
        let fin = run(mem, release_all(buffers)).unwrap();
        assert forall|a: usize| #[trigger] fin.contains_key(a) == (mem.contains_key(a) && forall|
            i: int,
        | 0 <= i < buffers.len() ==> buffers[i].addr() != a) by {
            if fin.contains_key(a) {
                assert forall|i: int| 0 <= i < buffers.len() implies buffers[i].addr() != a by {
                    if i > 0 {
                        assert(rest[i - 1] == buffers[i]);
                    }
                }
            } else if mem.contains_key(a) && a != first.addr() {
                let i = choose|i: int| 0 <= i < rest.len() && rest[i].addr() == a;
                assert(buffers[i + 1] == rest[i]);
            }
        }
    }
}

} // verus!
