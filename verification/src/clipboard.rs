//! Text on the clipboard, as NUL-terminated UTF-16.
//!
//! Reading and writing are sequences of system calls in which every call may
//! fail. `ClipboardRead` and `ClipboardWrite` tell their caller one call at a
//! time and hear what it returned.
use vstd::prelude::*;

use crate::utf16::from_utf16_lossy;
use crate::utf16::wide;
use crate::words::lparam_low;

verus! {

/// The clipboard format of NUL-terminated UTF-16.
pub const CF_UNICODETEXT: u32 = 13;

/// Asks for memory that may be moved while it is not locked.
pub const GMEM_MOVEABLE: u32 = 0x0002;

/// What a clipboard holds.
#[derive(Debug, PartialEq, Eq)]
pub enum ClipboardData {
    Text(String),
}

/// The clipboard's contents as data: its text.
pub fn get_clipboard_data(text: String) -> (data: ClipboardData)
    ensures
        data == ClipboardData::Text(text),
{
    ClipboardData::Text(text)
}

/// The next call of a read.
#[derive(Debug, Clone, Copy, PartialEq, Eq, Structural)]
pub enum ReadAction {
    OpenClipboard,
    /// Get the memory of the contents in this format.
    GetData(u32),
    /// Lock this memory in place.
    Lock(isize),
    /// Read the code unit with this number at this address.
    ReadUnit(isize, usize),
    /// Unlock this memory.
    Unlock(isize),
    CloseClipboard,
    Done,
}

/// The step that a read has come to.
#[derive(Debug, Clone, Copy, PartialEq, Eq, Structural)]
pub enum ReadPhase {
    Open,
    GetData,
    Lock,
    ReadUnit,
    Unlock,
    Close,
    Done,
}

/// A read of the clipboard's text.
#[derive(Debug)]
pub struct ClipboardRead {
    phase: ReadPhase,
    memory: isize,
    address: isize,
    units: Vec<u16>,
}

/// The contents of a `ClipboardRead`.
pub struct ReadState {
    pub phase: ReadPhase,
    /// The memory of the clipboard's contents.
    pub memory: isize,
    /// Where the memory was locked.
    pub address: isize,
    /// The code units that were read.
    pub units: Seq<u16>,
}

impl View for ClipboardRead {
    type V = ReadState;

    closed spec fn view(&self) -> ReadState {
        ReadState {
            phase: self.phase,
            memory: self.memory,
            address: self.address,
            units: self.units@,
        }
    }
}

impl ReadState {
    /// A read that has made no call.
    pub open spec fn start() -> ReadState {
        ReadState { phase: ReadPhase::Open, memory: 0, address: 0, units: seq![] }
    }

    /// The next call.
    pub open spec fn action(self) -> ReadAction {
        match self.phase {
            ReadPhase::Open => ReadAction::OpenClipboard,
            ReadPhase::GetData => ReadAction::GetData(CF_UNICODETEXT),
            ReadPhase::Lock => ReadAction::Lock(self.memory),
            ReadPhase::ReadUnit => ReadAction::ReadUnit(self.address, self.units.len() as usize),
            ReadPhase::Unlock => ReadAction::Unlock(self.memory),
            ReadPhase::Close => ReadAction::CloseClipboard,
            ReadPhase::Done => ReadAction::Done,
        }
    }

    /// The read after its next call returned `result`: zero is a failure of the
    /// first three calls, and the terminator of the text where a unit was read.
    pub open spec fn after(self, result: isize) -> ReadState {
        match self.phase {
            ReadPhase::Open => ReadState {
                phase: if result == 0 {
                    ReadPhase::Done
                } else {
                    ReadPhase::GetData
                },
                ..self
            },
            ReadPhase::GetData => if result == 0 {
                ReadState { phase: ReadPhase::Close, ..self }
            } else {
                ReadState { phase: ReadPhase::Lock, memory: result, ..self }
            },
            ReadPhase::Lock => if result == 0 {
                ReadState { phase: ReadPhase::Close, ..self }
            } else {
                ReadState { phase: ReadPhase::ReadUnit, address: result, ..self }
            },
            ReadPhase::ReadUnit => {
                let unit = crate::words::low_word(result as int) as u16;
                if unit == 0 {
                    ReadState { phase: ReadPhase::Unlock, ..self }
                } else {
                    ReadState { units: self.units.push(unit), ..self }
                }
            },
            ReadPhase::Unlock => ReadState { phase: ReadPhase::Close, ..self },
            ReadPhase::Close => ReadState { phase: ReadPhase::Done, ..self },
            ReadPhase::Done => self,
        }
    }

    /// The read after its next calls returned these results.
    pub open spec fn after_all(self, results: Seq<isize>) -> ReadState
        decreases results.len(),
    {
        if results.len() == 0 {
            self
        } else {
            self.after(results[0]).after_all(results.drop_first())
        }
    }
}

impl ClipboardRead {
    /// A read that has made no call.
    pub fn new() -> (read: ClipboardRead)
        ensures
            read@ == ReadState::start(),
    {
        ClipboardRead { phase: ReadPhase::Open, memory: 0, address: 0, units: Vec::new() }
    }

    /// The next call.
    pub fn action(&self) -> (action: ReadAction)
        ensures
            action == self@.action(),
    {
        match self.phase {
            ReadPhase::Open => ReadAction::OpenClipboard,
            ReadPhase::GetData => ReadAction::GetData(CF_UNICODETEXT),
            ReadPhase::Lock => ReadAction::Lock(self.memory),
            ReadPhase::ReadUnit => ReadAction::ReadUnit(self.address, self.units.len()),
            ReadPhase::Unlock => ReadAction::Unlock(self.memory),
            ReadPhase::Close => ReadAction::CloseClipboard,
            ReadPhase::Done => ReadAction::Done,
        }
    }

    /// Goes on after the next call returned `result`, a number, an address or
    /// a code unit.
    pub fn advance(&mut self, result: isize)
        ensures
            final(self)@ == old(self)@.after(result),
    {
        match self.phase {
            ReadPhase::Open => {
                self.phase = if result == 0 {
                    ReadPhase::Done
                } else {
                    ReadPhase::GetData
                };
            },
            ReadPhase::GetData => {
                if result == 0 {
                    self.phase = ReadPhase::Close;
                } else {
                    self.memory = result;
                    self.phase = ReadPhase::Lock;
                }
            },
            ReadPhase::Lock => {
                if result == 0 {
                    self.phase = ReadPhase::Close;
                } else {
                    self.address = result;
                    self.phase = ReadPhase::ReadUnit;
                }
            },
            ReadPhase::ReadUnit => {
                let unit: u16 = lparam_low(result);
                if unit == 0 {
                    self.phase = ReadPhase::Unlock;
                } else {
                    self.units.push(unit);
                }
            },
            ReadPhase::Unlock => {
                self.phase = ReadPhase::Close;
            },
            ReadPhase::Close => {
                self.phase = ReadPhase::Done;
            },
            ReadPhase::Done => {},
        }
    }

    /// The text that was read: empty when the clipboard was not available or
    /// held no text.
    pub fn get_clipboard_text(&self) -> (text: String)
        ensures
            text@ == crate::utf16::decode_utf16_lossy(self@.units),
    {
        from_utf16_lossy(self.units.as_slice())
    }
}

/// The next call of a write.
#[derive(Debug, Clone, Copy, PartialEq, Eq, Structural)]
pub enum WriteAction {
    OpenClipboard,
    EmptyClipboard,
    /// Allocate memory with these flags and this size in bytes.
    Alloc(u32, usize),
    /// Lock this memory in place.
    Lock(isize),
    /// Copy the code units of the text to this address.
    CopyUnits(isize),
    /// Unlock this memory.
    Unlock(isize),
    /// Give this memory, in this format, to the clipboard.
    SetData(u32, isize),
    CloseClipboard,
    Done,
}

/// The step that a write has come to.
#[derive(Debug, Clone, Copy, PartialEq, Eq, Structural)]
pub enum WritePhase {
    Open,
    Empty,
    Alloc,
    Lock,
    CopyUnits,
    Unlock,
    SetData,
    Close,
    Done,
}

/// A write of text to the clipboard.
#[derive(Debug)]
pub struct ClipboardWrite {
    phase: WritePhase,
    memory: isize,
    address: isize,
    units: Vec<u16>,
}

/// The contents of a `ClipboardWrite`.
pub struct WriteState {
    pub phase: WritePhase,
    /// The memory that was allocated.
    pub memory: isize,
    /// Where the memory was locked.
    pub address: isize,
    /// The code units to write.
    pub units: Seq<u16>,
}

impl View for ClipboardWrite {
    type V = WriteState;

    closed spec fn view(&self) -> WriteState {
        WriteState {
            phase: self.phase,
            memory: self.memory,
            address: self.address,
            units: self.units@,
        }
    }
}

impl WriteState {
    /// A write of `text` that has made no call.
    pub open spec fn start(text: Seq<char>) -> WriteState {
        WriteState {
            phase: WritePhase::Open,
            memory: 0,
            address: 0,
            units: crate::utf16::wide_units(text),
        }
    }

    /// The next call.
    pub open spec fn action(self) -> WriteAction {
        match self.phase {
            WritePhase::Open => WriteAction::OpenClipboard,
            WritePhase::Empty => WriteAction::EmptyClipboard,
            WritePhase::Alloc => WriteAction::Alloc(GMEM_MOVEABLE, (self.units.len() * 2) as usize),
            WritePhase::Lock => WriteAction::Lock(self.memory),
            WritePhase::CopyUnits => WriteAction::CopyUnits(self.address),
            WritePhase::Unlock => WriteAction::Unlock(self.memory),
            WritePhase::SetData => WriteAction::SetData(CF_UNICODETEXT, self.memory),
            WritePhase::Close => WriteAction::CloseClipboard,
            WritePhase::Done => WriteAction::Done,
        }
    }

    /// The write after its next call returned `result`: zero is a failure to
    /// open the clipboard, to allocate memory or to lock it.
    pub open spec fn after(self, result: isize) -> WriteState {
        match self.phase {
            WritePhase::Open => WriteState {
                phase: if result == 0 {
                    WritePhase::Done
                } else {
                    WritePhase::Empty
                },
                ..self
            },
            WritePhase::Empty => WriteState { phase: WritePhase::Alloc, ..self },
            WritePhase::Alloc => if result == 0 {
                WriteState { phase: WritePhase::Close, ..self }
            } else {
                WriteState { phase: WritePhase::Lock, memory: result, ..self }
            },
            WritePhase::Lock => if result == 0 {
                WriteState { phase: WritePhase::Close, ..self }
            } else {
                WriteState { phase: WritePhase::CopyUnits, address: result, ..self }
            },
            WritePhase::CopyUnits => WriteState { phase: WritePhase::Unlock, ..self },
            WritePhase::Unlock => WriteState { phase: WritePhase::SetData, ..self },
            WritePhase::SetData => WriteState { phase: WritePhase::Close, ..self },
            WritePhase::Close => WriteState { phase: WritePhase::Done, ..self },
            WritePhase::Done => self,
        }
    }

    /// The write after its next calls returned these results.
    pub open spec fn after_all(self, results: Seq<isize>) -> WriteState
        decreases results.len(),
    {
        if results.len() == 0 {
            self
        } else {
            self.after(results[0]).after_all(results.drop_first())
        }
    }
}

impl ClipboardWrite {
    /// The code units take no more bytes than an address can count.
    #[verifier::type_invariant]
    spec fn fits(self) -> bool {
        self.units@.len() * 2 <= usize::MAX
    }

    /// A write of `text` that has made no call.
    pub fn set_clipboard_text(text: &str) -> (write: ClipboardWrite)
        requires
            crate::utf16::wide_units(text@).len() * 2 <= usize::MAX,
        ensures
            write@ == WriteState::start(text@),
    {
        let units: Vec<u16> = wide(text);
        ClipboardWrite { phase: WritePhase::Open, memory: 0, address: 0, units }
    }

    /// The code units to write.
    pub fn units(&self) -> (units: &[u16])
        ensures
            units@ == self@.units,
    {
        self.units.as_slice()
    }

    /// The next call.
    pub fn action(&self) -> (action: WriteAction)
        ensures
            action == self@.action(),
    {
        proof {
            use_type_invariant(self);
        }
        match self.phase {
            WritePhase::Open => WriteAction::OpenClipboard,
            WritePhase::Empty => WriteAction::EmptyClipboard,
            WritePhase::Alloc => WriteAction::Alloc(GMEM_MOVEABLE, self.units.len() * 2),
            WritePhase::Lock => WriteAction::Lock(self.memory),
            WritePhase::CopyUnits => WriteAction::CopyUnits(self.address),
            WritePhase::Unlock => WriteAction::Unlock(self.memory),
            WritePhase::SetData => WriteAction::SetData(CF_UNICODETEXT, self.memory),
            WritePhase::Close => WriteAction::CloseClipboard,
            WritePhase::Done => WriteAction::Done,
        }
    }

    /// Goes on after the next call returned `result`, a number or an address.
    pub fn advance(&mut self, result: isize)
        ensures
            final(self)@ == old(self)@.after(result),
    {
        proof {
            use_type_invariant(&*self);
        }
        match self.phase {
            WritePhase::Open => {
                self.phase = if result == 0 {
                    WritePhase::Done
                } else {
                    WritePhase::Empty
                };
            },
            WritePhase::Empty => {
                self.phase = WritePhase::Alloc;
            },
            WritePhase::Alloc => {
                if result == 0 {
                    self.phase = WritePhase::Close;
                } else {
                    self.memory = result;
                    self.phase = WritePhase::Lock;
                }
            },
            WritePhase::Lock => {
                if result == 0 {
                    self.phase = WritePhase::Close;
                } else {
                    self.address = result;
                    self.phase = WritePhase::CopyUnits;
                }
            },
            WritePhase::CopyUnits => {
                self.phase = WritePhase::Unlock;
            },
            WritePhase::Unlock => {
                self.phase = WritePhase::SetData;
            },
            WritePhase::SetData => {
                self.phase = WritePhase::Close;
            },
            WritePhase::Close => {
                self.phase = WritePhase::Done;
            },
            WritePhase::Done => {},
        }
    }
}

} // verus!
