//! What holds of reading and writing the clipboard, whatever the system's
//! calls return.
use vstd::prelude::*;

use crate::clipboard::ReadAction;
use crate::clipboard::ReadPhase;
use crate::clipboard::ReadState;
use crate::clipboard::WriteAction;
use crate::clipboard::WritePhase;
use crate::clipboard::WriteState;

verus! {

/// What a read or a write holds of the system.
pub struct Held {
    /// The clipboard is open.
    pub open: bool,
    /// Memory is locked in place.
    pub locked: bool,
    /// The text was copied to that memory.
    pub copied: bool,
}

/// Nothing is held.
pub open spec fn nothing_held() -> Held {
    Held { open: false, locked: false, copied: false }
}

/// What is held after a call of a read returned `result`.
pub open spec fn held_after_read(held: Held, action: ReadAction, result: isize) -> Held {
    match action {
        ReadAction::OpenClipboard => Held { open: result != 0, ..held },
        ReadAction::Lock(_) => Held { locked: result != 0, ..held },
        ReadAction::Unlock(_) => Held { locked: false, ..held },
        ReadAction::CloseClipboard => Held { open: false, ..held },
        _ => held,
    }
}

/// A call of a read that the system allows.
pub open spec fn read_allowed(held: Held, action: ReadAction) -> bool {
    match action {
        ReadAction::OpenClipboard => !held.open,
        ReadAction::GetData(_) => held.open,
        ReadAction::Lock(memory) => held.open && !held.locked && memory != 0,
        ReadAction::ReadUnit(address, _) => held.open && held.locked && address != 0,
        ReadAction::Unlock(memory) => held.open && held.locked && memory != 0,
        ReadAction::CloseClipboard => held.open && !held.locked,
        ReadAction::Done => held == nothing_held(),
    }
}

/// What is held after the next calls of a read returned these results.
pub open spec fn read_held(state: ReadState, held: Held, results: Seq<isize>) -> Held
    decreases results.len(),
{
    if results.len() == 0 {
        held
    } else {
        read_held(
            state.after(results[0]),
            held_after_read(held, state.action(), results[0]),
            results.drop_first(),
        )
    }
}

/// What each step of a read holds.
spec fn read_invariant(state: ReadState, held: Held) -> bool {
    &&& held.open == !(state.phase is Open || state.phase is Done)
    &&& held.locked == (state.phase is ReadUnit || state.phase is Unlock)
    &&& !held.copied
    &&& (state.phase is Lock || held.locked) ==> state.memory != 0
    &&& held.locked ==> state.address != 0
}

proof fn lemma_read_invariant(state: ReadState, held: Held, results: Seq<isize>)
    requires
        read_invariant(state, held),
    ensures
        read_invariant(state.after_all(results), read_held(state, held, results)),
    decreases results.len(),
{
    if results.len() > 0 {
        lemma_read_invariant(
            state.after(results[0]),
            held_after_read(held, state.action(), results[0]),
            results.drop_first(),
        );
    }
}

/// Whatever the system returns, a read makes only calls that are allowed at
/// that point, and when it is done the clipboard is closed and no memory is
/// locked.
pub proof fn law_read_is_balanced(results: Seq<isize>)
    ensures
        read_allowed(
            read_held(ReadState::start(), nothing_held(), results),
            ReadState::start().after_all(results).action(),
        ),
{
    lemma_read_invariant(ReadState::start(), nothing_held(), results);
}

/// A read that does not get to the text gives an empty text: the clipboard does
/// not open, or holds no text, or its memory cannot be locked.
pub proof fn law_failed_read_is_empty(opened: isize, data: isize, closed: isize)
    requires
        opened != 0,
        data != 0,
    ensures
        ReadState::start().after_all(seq![0]).action() == ReadAction::Done,
        crate::utf16::decode_utf16_lossy(ReadState::start().after_all(seq![0]).units) == Seq::<
            char,
        >::empty(),
        ReadState::start().after_all(seq![opened, 0, closed]).action() == ReadAction::Done,
        crate::utf16::decode_utf16_lossy(
            ReadState::start().after_all(seq![opened, 0, closed]).units,
        ) == Seq::<char>::empty(),
        ReadState::start().after_all(seq![opened, data, 0, closed]).action() == ReadAction::Done,
        crate::utf16::decode_utf16_lossy(
            ReadState::start().after_all(seq![opened, data, 0, closed]).units,
        ) == Seq::<char>::empty(),
{
    reveal_with_fuel(ReadState::after_all, 5);
    assert(seq![0isize].drop_first() =~= seq![]);
    assert(seq![opened, 0, closed].drop_first() =~= seq![0, closed]);
    assert(seq![0, closed].drop_first() =~= seq![closed]);
    assert(seq![closed].drop_first() =~= seq![]);
    assert(seq![opened, data, 0, closed].drop_first() =~= seq![data, 0, closed]);
    assert(seq![data, 0, closed].drop_first() =~= seq![0, closed]);
}

/// What is held after a call of a write returned `result`.
pub open spec fn held_after_write(held: Held, action: WriteAction, result: isize) -> Held {
    match action {
        WriteAction::OpenClipboard => Held { open: result != 0, ..held },
        WriteAction::Lock(_) => Held { locked: result != 0, ..held },
        WriteAction::CopyUnits(_) => Held { copied: true, ..held },
        WriteAction::Unlock(_) => Held { locked: false, ..held },
        WriteAction::CloseClipboard => Held { open: false, ..held },
        _ => held,
    }
}

/// A call of a write that the system allows. Only memory that holds the text
/// and is not locked is given to the clipboard.
pub open spec fn write_allowed(held: Held, action: WriteAction) -> bool {
    match action {
        WriteAction::OpenClipboard => !held.open,
        WriteAction::EmptyClipboard => held.open,
        WriteAction::Alloc(_, _) => held.open,
        WriteAction::Lock(memory) => held.open && !held.locked && memory != 0,
        WriteAction::CopyUnits(address) => held.open && held.locked && address != 0,
        WriteAction::Unlock(memory) => held.open && held.locked && memory != 0,
        WriteAction::SetData(_, memory) => held.open && !held.locked && held.copied && memory != 0,
        WriteAction::CloseClipboard => held.open && !held.locked,
        WriteAction::Done => !held.open && !held.locked,
    }
}

/// What is held after the next calls of a write returned these results.
pub open spec fn write_held(state: WriteState, held: Held, results: Seq<isize>) -> Held
    decreases results.len(),
{
    if results.len() == 0 {
        held
    } else {
        write_held(
            state.after(results[0]),
            held_after_write(held, state.action(), results[0]),
            results.drop_first(),
        )
    }
}

/// What each step of a write holds.
spec fn write_invariant(state: WriteState, held: Held) -> bool {
    &&& held.open == !(state.phase is Open || state.phase is Done)
    &&& held.locked == (state.phase is CopyUnits || state.phase is Unlock)
    &&& (state.phase is Unlock || state.phase is SetData) ==> held.copied
    &&& (state.phase is Lock || held.locked || state.phase is SetData) ==> state.memory != 0
    &&& held.locked ==> state.address != 0
}

proof fn lemma_write_invariant(state: WriteState, held: Held, results: Seq<isize>)
    requires
        write_invariant(state, held),
    ensures
        write_invariant(state.after_all(results), write_held(state, held, results)),
        state.after_all(results).units == state.units,
    decreases results.len(),
{
    if results.len() > 0 {
        lemma_write_invariant(
            state.after(results[0]),
            held_after_write(held, state.action(), results[0]),
            results.drop_first(),
        );
    }
}

/// Whatever the system returns, a write makes only calls that are allowed at
/// that point, copies the code units of its text and no others, and when it is
/// done the clipboard is closed and no memory is locked.
pub proof fn law_write_is_balanced(text: Seq<char>, results: Seq<isize>)
    ensures
        write_allowed(
            write_held(WriteState::start(text), nothing_held(), results),
            WriteState::start(text).after_all(results).action(),
        ),
        WriteState::start(text).after_all(results).units == crate::utf16::wide_units(text),
{
    lemma_write_invariant(WriteState::start(text), nothing_held(), results);
}

/// The results of reading these code units one by one.
pub open spec fn unit_results(units: Seq<u16>) -> Seq<isize> {
    units.map_values(|u: u16| u as isize)
}

/// The results of reading memory up to and with its first NUL.
pub open spec fn results_of_memory(memory: Seq<u16>) -> Seq<isize> {
    unit_results(memory.take(crate::utf16::units_before_nul(memory).len() as int + 1))
}

/// The part before the first NUL ends right before a NUL.
proof fn lemma_nul_follows(memory: Seq<u16>)
    requires
        memory.contains(0),
    ensures
        crate::utf16::units_before_nul(memory).len() < memory.len(),
    decreases memory.len(),
{
    if memory[0] != 0 {
        let rest = memory.skip(1);
        let i = choose|i: int| 0 <= i < memory.len() && memory[i] == 0;
        assert(rest[i - 1] == 0);
        lemma_nul_follows(rest);
    }
}

/// Reading memory that holds a NUL collects the code units before it.
proof fn lemma_read_collects(state: ReadState, memory: Seq<u16>, after: Seq<isize>)
    requires
        state.phase is ReadUnit,
        memory.contains(0),
    ensures
        state.after_all(results_of_memory(memory) + after) == (ReadState {
            phase: ReadPhase::Unlock,
            units: state.units + crate::utf16::units_before_nul(memory),
            ..state
        }).after_all(after),
    decreases memory.len(),
{
    let results = results_of_memory(memory);
    let all = results + after;
    let before = crate::utf16::units_before_nul(memory);
    lemma_nul_follows(memory);
    assert(all[0] == memory[0] as isize);
    if memory[0] == 0 {
        assert(before =~= seq![]);
        assert(all.drop_first() =~= after);
        assert(state.units + before =~= state.units);
    } else {
        let rest = memory.skip(1);
        let i = choose|i: int| 0 <= i < memory.len() && memory[i] == 0;
        assert(rest[i - 1] == 0);
        let next = ReadState { units: state.units.push(memory[0]), ..state };
        lemma_nul_follows(rest);
        lemma_read_collects(next, rest, after);
        assert(all.drop_first() =~= results_of_memory(rest) + after);
        assert(next.units + crate::utf16::units_before_nul(rest) =~= state.units + before);
    }
}

/// What is read back from the clipboard is the text that was written to it, up
/// to its first NUL character: a write puts into memory the code units of
/// `text`, and a read of that memory, whatever follows the text in it, is done
/// with exactly that part of `text`.
pub proof fn law_clipboard_gives_text_back(
    text: Seq<char>,
    after: Seq<u16>,
    opened: isize,
    data: isize,
    address: isize,
    unlocked: isize,
    closed: isize,
)
    requires
        opened != 0,
        data != 0,
        address != 0,
    ensures
        ({
            let memory = WriteState::start(text).units + after;
            let results = seq![opened, data, address] + results_of_memory(memory) + seq![
                unlocked,
                closed,
            ];
            let done = ReadState::start().after_all(results);
            &&& done.action() == ReadAction::Done
            &&& crate::utf16::decode_utf16_lossy(done.units) == crate::utf16::chars_before_nul(text)
            &&& !text.contains('\0') ==> crate::utf16::decode_utf16_lossy(done.units) == text
        }),
{
    let memory = WriteState::start(text).units + after;
    let tail = results_of_memory(memory) + seq![unlocked, closed];
    let results = seq![opened, data, address] + results_of_memory(memory) + seq![unlocked, closed];
    let locked = ReadState {
        phase: ReadPhase::ReadUnit,
        memory: data,
        address,
        units: Seq::<u16>::empty(),
    };
    crate::utf16::law_wide_is_nul_terminated(text, after);
    crate::utf16::law_decode_inverts_encode(crate::utf16::chars_before_nul(text));
    if !text.contains('\0') {
        crate::utf16::law_text_without_nul_is_whole(text);
    }
    let nul = crate::utf16::encode_utf16(text).len() as int;
    assert(memory[nul] == 0);
    assert(ReadState::start().after_all(results) == locked.after_all(tail)) by {
        reveal_with_fuel(ReadState::after_all, 4);
        assert(results.drop_first() =~= seq![data, address] + tail);
        assert((seq![data, address] + tail).drop_first() =~= seq![address] + tail);
        assert((seq![address] + tail).drop_first() =~= tail);
    }
    lemma_read_collects(locked, memory, seq![unlocked, closed]);
    let read = crate::utf16::units_before_nul(memory);
    assert(Seq::<u16>::empty() + read =~= read);
    reveal_with_fuel(ReadState::after_all, 3);
    assert(seq![unlocked, closed].drop_first() =~= seq![closed]);
    assert(seq![closed].drop_first() =~= seq![]);
}

/// When no call fails, a write empties the clipboard, fills memory of twice as
/// many bytes as there are code units, and gives it to the clipboard.
pub proof fn law_write_succeeds(
    text: Seq<char>,
    opened: isize,
    emptied: isize,
    memory: isize,
    address: isize,
    copied: isize,
    unlocked: isize,
    set: isize,
    closed: isize,
)
    requires
        opened != 0,
        memory != 0,
        address != 0,
    ensures
        ({
            let s0 = WriteState::start(text);
            let s1 = s0.after(opened);
            let s2 = s1.after(emptied);
            let s3 = s2.after(memory);
            let s4 = s3.after(address);
            let s5 = s4.after(copied);
            let s6 = s5.after(unlocked);
            let s7 = s6.after(set);
            let s8 = s7.after(closed);
            &&& s0.action() == WriteAction::OpenClipboard
            &&& s1.action() == WriteAction::EmptyClipboard
            &&& s2.action() == WriteAction::Alloc(
                0x0002,
                (crate::utf16::wide_units(text).len() * 2) as usize,
            )
            &&& s3.action() == WriteAction::Lock(memory)
            &&& s4.action() == WriteAction::CopyUnits(address)
            &&& s5.action() == WriteAction::Unlock(memory)
            &&& s6.action() == WriteAction::SetData(13, memory)
            &&& s7.action() == WriteAction::CloseClipboard
            &&& s8.action() == WriteAction::Done
        }),
{
}

/// A write that cannot open the clipboard makes no other call. One that gets no
/// memory, or cannot lock it, gives nothing to the clipboard and closes it.
pub proof fn law_failed_write_gives_nothing(
    text: Seq<char>,
    opened: isize,
    emptied: isize,
    memory: isize,
    closed: isize,
)
    requires
        opened != 0,
        memory != 0,
    ensures
        ({
            let s0 = WriteState::start(text);
            let s2 = s0.after(opened).after(emptied);
            &&& s0.after(0).action() == WriteAction::Done
            &&& s2.after(0).action() == WriteAction::CloseClipboard
            &&& s2.after(0).after(closed).action() == WriteAction::Done
            &&& s2.after(memory).after(0).action() == WriteAction::CloseClipboard
            &&& s2.after(memory).after(0).after(closed).action() == WriteAction::Done
        }),
{
}

/// A finished write makes no more calls, whatever it is told.
pub proof fn law_finished_write_stays_finished(state: WriteState, result: isize)
    requires
        state.action() == WriteAction::Done,
    ensures
        state.after(result).action() == WriteAction::Done,
{
}

/// A read goes on from where its results so far have brought it.
proof fn lemma_read_goes_on(state: ReadState, results: Seq<isize>)
    requires
        results.len() > 0,
    ensures
        state.after_all(results) == state.after_all(results.drop_last()).after(results.last()),
    decreases results.len(),
{
    if results.len() == 1 {
        assert(results.drop_first() =~= seq![]);
        assert(results.drop_last() =~= seq![]);
        reveal_with_fuel(ReadState::after_all, 2);
    } else {
        lemma_read_goes_on(state.after(results[0]), results.drop_first());
        assert(results.drop_first().drop_last() =~= results.drop_last().drop_first());
    }
}

/// The units that a read has collected are what its calls for units returned.
pub open spec fn units_were_read(units: Seq<u16>, results: Seq<isize>) -> bool {
    &&& results.len() >= 3 + units.len()
    &&& forall|j: int|
        0 <= j < units.len() ==> #[trigger] units[j] != 0 && units[j] == results[3 + j] as int
            % 0x10000
}

/// What a read holds at each of its steps.
spec fn read_trace(state: ReadState, results: Seq<isize>) -> bool {
    let n = state.units.len() as int;
    let started = results.len() >= 3 && results[0] != 0 && results[1] != 0 && results[2] != 0;
    let complete = started && units_were_read(state.units, results) && results.len() >= 4 + n
        && results[3 + n] as int % 0x10000 == 0;
    match state.phase {
        ReadPhase::Open => results.len() == 0 && n == 0,
        ReadPhase::GetData => results.len() == 1 && results[0] != 0 && n == 0,
        ReadPhase::Lock => results.len() == 2 && results[0] != 0 && results[1] != 0 && state.memory
            == results[1] && n == 0,
        ReadPhase::ReadUnit => started && results.len() == 3 + n && state.memory == results[1]
            && state.address == results[2] && units_were_read(state.units, results),
        ReadPhase::Unlock => complete && results.len() == 4 + n && state.memory == results[1],
        ReadPhase::Close => (complete && results.len() == 5 + n) || (n == 0 && results.len() == 2
            && results[0] != 0 && results[1] == 0) || (n == 0 && results.len() == 3 && results[0]
            != 0 && results[1] != 0 && results[2] == 0),
        ReadPhase::Done => (complete && results.len() >= 6 + n) || (n == 0 && results.len() >= 1
            && results[0] == 0) || (n == 0 && results.len() >= 3 && results[0] != 0 && results[1]
            == 0) || (n == 0 && results.len() >= 4 && results[0] != 0 && results[1] != 0
            && results[2] == 0),
    }
}

proof fn lemma_read_trace(results: Seq<isize>)
    ensures
        read_trace(ReadState::start().after_all(results), results),
    decreases results.len(),
{
    if results.len() > 0 {
        let before = results.drop_last();
        let s = ReadState::start().after_all(before);
        lemma_read_trace(before);
        lemma_read_goes_on(ReadState::start(), results);
        assert(forall|i: int| 0 <= i < before.len() ==> before[i] == results[i]);
        let after = s.after(results.last());
        if s.phase is ReadUnit || s.phase is Unlock || s.phase is Close || s.phase is Done {
            assert(units_were_read(s.units, before) ==> units_were_read(s.units, results));
        }
        if s.phase is ReadUnit && results.last() as int % 0x10000 != 0 {
            assert(units_were_read(after.units, results));
        }
    }
}

/// Every call of a read follows from what the calls before it returned. Memory is
/// locked and unlocked by the handle that the clipboard gave. The code unit that is read
/// next is the one right after those that were read, at the address of the lock; what
/// was collected is what was read there, in order and each once.
pub proof fn law_read_asks_for_the_next_unit(results: Seq<isize>)
    requires
        results.len() <= usize::MAX,
    ensures
        ({
            let state = ReadState::start().after_all(results);
            match state.action() {
                ReadAction::OpenClipboard => results.len() == 0,
                ReadAction::GetData(format) => format == 13 && results.len() == 1 && results[0]
                    != 0,
                ReadAction::Lock(memory) => results.len() == 2 && memory == results[1] && memory
                    != 0,
                ReadAction::ReadUnit(address, index) => {
                    &&& results.len() == 3 + index
                    &&& address == results[2]
                    &&& state.units.len() == index
                    &&& units_were_read(state.units, results)
                },
                ReadAction::Unlock(memory) => {
                    &&& memory == results[1]
                    &&& results.len() == 4 + state.units.len()
                    &&& units_were_read(state.units, results)
                    &&& results.last() as int % 0x10000 == 0
                },
                ReadAction::CloseClipboard => results.len() >= 2 && results[0] != 0,
                ReadAction::Done => results.len() >= 1,
            }
        }),
{
    lemma_read_trace(results);
}

/// A finished read has all of the text or none of it: where the clipboard opened, had
/// text and let it be locked, the text is all that was read up to a zero.
pub proof fn law_finished_read_is_whole(results: Seq<isize>)
    requires
        ReadState::start().after_all(results).action() == ReadAction::Done,
    ensures
        ({
            let units = ReadState::start().after_all(results).units;
            let n = units.len() as int;
            ||| units.len() == 0 && exists|i: int|
                0 <= i < 3 && i < results.len() && #[trigger] results[i] == 0
            ||| {
                &&& units_were_read(units, results)
                &&& results.len() >= 6 + n
                &&& results[3 + n] as int % 0x10000 == 0
            }
        }),
{
    lemma_read_trace(results);
}

/// The calls of a read were answered by a system whose clipboard holds `memory`: the
/// calls that can fail did not, and each call for a unit returned the unit that it
/// asked for.
pub open spec fn answered_from(memory: Seq<u16>, results: Seq<isize>) -> bool {
    forall|k: int|
        0 <= k < results.len() ==> match (#[trigger] ReadState::start().after_all(
            results.take(k),
        )).action() {
            ReadAction::OpenClipboard => results[k] != 0,
            ReadAction::GetData(_) => results[k] != 0,
            ReadAction::Lock(_) => results[k] != 0,
            ReadAction::ReadUnit(_, index) => index < memory.len() ==> results[k]
                == memory[index as int] as isize,
            _ => true,
        }
}

/// A read gets the text that is in memory. With a zero at place `n` and none before
/// it, the read opens the clipboard, gets and locks the memory, reads the units 0 to
/// `n` where it was locked, unlocks the memory, closes the clipboard and is done, with
/// the units before the zero.
pub proof fn law_read_gets_what_is_in_memory(memory: Seq<u16>, n: int, results: Seq<isize>)
    requires
        0 <= n < memory.len(),
        memory.len() <= usize::MAX,
        memory[n] == 0,
        forall|j: int| 0 <= j < n ==> #[trigger] memory[j] != 0,
        answered_from(memory, results),
    ensures
        ({
            let state = ReadState::start().after_all(results);
            let calls = results.len() as int;
            &&& calls == 0 ==> state.action() == ReadAction::OpenClipboard
            &&& calls == 1 ==> state.action() == ReadAction::GetData(13)
            &&& calls == 2 ==> state.action() == ReadAction::Lock(results[1])
            &&& 3 <= calls <= 3 + n ==> {
                &&& state.action() == ReadAction::ReadUnit(results[2], (calls - 3) as usize)
                &&& state.units == memory.take(calls - 3)
            }
            &&& calls == 4 + n ==> state.action() == ReadAction::Unlock(results[1])
            &&& calls == 5 + n ==> state.action() == ReadAction::CloseClipboard
            &&& calls >= 6 + n ==> state.action() == ReadAction::Done
            &&& calls >= 4 + n ==> state.units == memory.take(n)
        }),
    decreases results.len(),
{
    if results.len() > 0 {
        let before = results.drop_last();
        let last = results.len() - 1;
        let s = ReadState::start().after_all(before);
        assert(before =~= results.take(last));
        assert(answered_from(memory, before)) by {
            assert forall|k: int| 0 <= k < before.len() implies match (
            #[trigger] ReadState::start().after_all(before.take(k))).action() {
                ReadAction::OpenClipboard => before[k] != 0,
                ReadAction::GetData(_) => before[k] != 0,
                ReadAction::Lock(_) => before[k] != 0,
                ReadAction::ReadUnit(_, index) => index < memory.len() ==> before[k]
                    == memory[index as int] as isize,
                _ => true,
            } by {
                assert(before.take(k) =~= results.take(k));
            }
        }
        law_read_gets_what_is_in_memory(memory, n, before);
        lemma_read_goes_on(ReadState::start(), results);
        lemma_read_trace(before);
        assert(ReadState::start().after_all(results.take(last)) == s);
        if 3 <= last <= 3 + n {
            let unit = memory[last - 3];
            assert(results[last] == unit as isize);
            assert(crate::words::low_word(unit as isize as int) as u16 == unit);
            if last < 3 + n {
                assert(memory.take(last - 3).push(unit) =~= memory.take(last - 2));
            }
        }
    }
}

/// What is pasted is what is in memory up to its first zero.
pub proof fn law_paste_is_the_text_in_memory(memory: Seq<u16>, results: Seq<isize>)
    requires
        memory.contains(0),
        memory.len() <= usize::MAX,
        answered_from(memory, results),
        ReadState::start().after_all(results).action() == ReadAction::Done,
    ensures
        ReadState::start().after_all(results).units == crate::utf16::units_before_nul(memory),
{
    let n = crate::utf16::units_before_nul(memory).len() as int;
    crate::utf16::law_units_end_at_the_first_nul(memory);
    lemma_nul_follows(memory);
    law_read_gets_what_is_in_memory(memory, n, results);
    lemma_read_trace(results);
}


} // verus!
