//! Interrupt dispatch: which handler each of the 256 vectors is bound to, and
//! what each handler decides. Reading I/O ports, printing and signalling the
//! interrupt controller is done by the kernel binary, on what the handlers
//! return.

use vstd::prelude::*;
use crate::gdt::DOUBLE_FAULT_IST_INDEX;

verus! {

/// Vector that the first line of the primary interrupt controller is moved to.
pub const PIC_1_OFFSET: u8 = 32;

/// Vector that the first line of the secondary interrupt controller is moved
/// to: the secondary follows the eight lines of the primary.
pub const PIC_2_OFFSET: u8 = PIC_1_OFFSET + 8;

/// Vector of the breakpoint exception.
pub const BREAKPOINT_VECTOR: u8 = 3;

/// Vector of the double fault exception.
pub const DOUBLE_FAULT_VECTOR: u8 = 8;

/// Vector of the page fault exception.
pub const PAGE_FAULT_VECTOR: u8 = 14;

/// The hardware interrupts that the kernel handles.
#[derive(Clone, Copy, Debug, PartialEq, Eq, Structural)]
pub enum InterruptIndex {
    Timer,
    Keyboard,
}

/// The handlers of the kernel.
#[derive(Clone, Copy, Debug, PartialEq, Eq, Structural)]
pub enum Handler {
    Breakpoint,
    PageFault,
    DoubleFault,
    Timer,
    Keyboard,
}

/// A slot of the interrupt descriptor table that is bound to a handler.
#[derive(Clone, Copy, Debug, PartialEq, Eq, Structural)]
pub struct Entry {
    pub handler: Handler,
    /// Slot of the interrupt stack table whose stack the handler runs on;
    /// without one it runs on the stack of the interrupted code.
    pub stack_index: Option<u16>,
}

/// The interrupt descriptor table: one slot for each of the 256 vectors,
/// unused or bound to a handler.
pub struct InterruptDescriptorTable {
    entries: [Option<Entry>; 256],
}

/// What is reported to the display when an exception is handled.
#[derive(Clone, Copy, Debug, PartialEq, Eq, Structural)]
pub enum Diagnostic {
    Breakpoint,
    PageFault { accessed_address: u64, error_code: u64 },
    DoubleFault,
}

/// What happens once a handler is done.
#[derive(Clone, Copy, Debug, PartialEq, Eq, Structural)]
pub enum Completion {
    /// Control goes back to the interrupted code.
    Resume,
    /// The processor is halted for good.
    Halt,
}

/// What a handler asks of the kernel binary, in this order: report the
/// diagnostic, print the character, send the end of interrupt for the given
/// interrupt to the controller, then complete.
#[derive(Clone, Copy, Debug, PartialEq, Eq, Structural)]
pub struct Outcome {
    pub diagnostic: Option<Diagnostic>,
    pub emit: Option<char>,
    pub acknowledge: Option<InterruptIndex>,
    pub completion: Completion,
}

/// A key as the keyboard decoder reports it.
pub enum DecodedKey {
    /// A key without a character, such as a shift key.
    RawKey(pc_keyboard::KeyCode),
    /// A key that stands for a character.
    Unicode(char),
}

/// The `KeyCode` of `pc_keyboard`: which key of the keyboard.
#[verifier::external_type_specification]
#[verifier::external_body]
pub struct ExKeyCode(pc_keyboard::KeyCode);

/// The `KeyEvent` of `pc_keyboard`: a key and whether it went up or down.
#[verifier::external_type_specification]
#[verifier::external_body]
pub struct ExKeyEvent(pc_keyboard::KeyEvent);

/// The `Error` of `pc_keyboard`: why a scancode could not be decoded.
#[verifier::external_type_specification]
#[verifier::external_body]
pub struct ExKeyboardError(pc_keyboard::Error);

/// The decoder of `pc_keyboard` for scancode set 1 and the US layout with 104
/// keys. Trusted: it keeps, from byte to byte, where in a scancode sequence
/// the keyboard is and which modifier keys are down.
#[verifier::external_body]
pub struct Keyboard {
    inner: pc_keyboard::Keyboard<pc_keyboard::layouts::Us104Key, pc_keyboard::ScancodeSet1>,
}

/// The bytes of the scancode sequence that a decoder is in the middle of:
/// none between sequences, else the byte that opened the sequence.
pub uninterp spec fn keyboard_pending(keyboard: Keyboard) -> Seq<u8>;

/// The key event that a decoder in the state `keyboard` completes with
/// `byte`, if it completes one: none where the byte opens a sequence or is
/// no known scancode.
pub uninterp spec fn keyboard_event(keyboard: Keyboard, byte: u8) -> Option<pc_keyboard::KeyEvent>;

/// The state of a decoder that was in the state `keyboard` and was given
/// `byte`.
pub uninterp spec fn keyboard_after(keyboard: Keyboard, byte: u8) -> Keyboard;

/// The key that a decoder in the state `keyboard` makes of `event`, if it
/// makes one of it.
pub uninterp spec fn keyboard_key(keyboard: Keyboard, event: pc_keyboard::KeyEvent) -> Option<
    DecodedKey,
>;

/// The state of a decoder that was in the state `keyboard` and has made a
/// key of `event`: the modifier keys that are down may have changed.
pub uninterp spec fn keyboard_processed(keyboard: Keyboard, event: pc_keyboard::KeyEvent) -> Keyboard;

/// Calls `pc_keyboard::Keyboard::new` with a fresh `ScancodeSet1`, the
/// layout `Us104Key` and `HandleControl::Ignore`. Trusted: the new decoder
/// is in the middle of no scancode sequence.
#[verifier::external_body]
fn keyboard_new() -> (keyboard: Keyboard)
    ensures
        keyboard_pending(keyboard) == Seq::<u8>::empty(),
{
    Keyboard {
        inner: pc_keyboard::Keyboard::new(
            pc_keyboard::ScancodeSet1::new(),
            pc_keyboard::layouts::Us104Key,
            pc_keyboard::HandleControl::Ignore,
        ),
    }
}

/// Calls `pc_keyboard::Keyboard::add_byte`. Trusted: the answer and the new
/// state depend on the state and the byte alone, and are given their names:
/// the key event where the answer holds one, none where it holds none or is
/// an error. Trusted, of scancode set 1: between sequences the bytes 0xE0
/// and 0xE1 open a sequence and complete no key; every other byte, and
/// every byte within a sequence, leaves the decoder between sequences and
/// gives a key event or an error.
#[verifier::external_body]
fn keyboard_add_byte(keyboard: &mut Keyboard, byte: u8) -> (event: Result<
    Option<pc_keyboard::KeyEvent>,
    pc_keyboard::Error,
>)
    ensures
        keyboard_event(*old(keyboard), byte) == (match event {
            Ok(Some(key_event)) => Some(key_event),
            _ => None,
        }),
        *final(keyboard) == keyboard_after(*old(keyboard), byte),
        keyboard_pending(*final(keyboard)) == pending_after(keyboard_pending(*old(keyboard)), byte),
        (event matches Ok(None)) <==> opens_sequence(keyboard_pending(*old(keyboard)), byte),
{
    keyboard.inner.add_byte(byte)
}

/// Calls `pc_keyboard::Keyboard::process_keyevent` and hands the decoded key
/// on, variant for variant. Trusted: the key and the new state depend on the
/// state and the event alone, and are given their names; the scancode
/// sequence under way is left as it is.
#[verifier::external_body]
fn keyboard_process_keyevent(keyboard: &mut Keyboard, event: pc_keyboard::KeyEvent) -> (decoded: Option<
    DecodedKey,
>)
    ensures
        decoded == keyboard_key(*old(keyboard), event),
        *final(keyboard) == keyboard_processed(*old(keyboard), event),
        keyboard_pending(*final(keyboard)) == keyboard_pending(*old(keyboard)),
{
    match keyboard.inner.process_keyevent(event) {
        Some(pc_keyboard::DecodedKey::RawKey(code)) => Some(DecodedKey::RawKey(code)),
        Some(pc_keyboard::DecodedKey::Unicode(character)) => Some(DecodedKey::Unicode(character)),
        None => None,
    }
}

/// The key that a decoder in the state `keyboard` makes of `byte`: the byte
/// goes to the decoder, and where it completes a key event, the event goes
/// through the layout in the state that the byte has left.
pub open spec fn decoded_key(keyboard: Keyboard, byte: u8) -> Option<DecodedKey> {
    match keyboard_event(keyboard, byte) {
        Some(key_event) => keyboard_key(keyboard_after(keyboard, byte), key_event),
        None => None,
    }
}

/// The state in which `byte` leaves a decoder that was in the state
/// `keyboard`, once the key event that it completes, if any, has gone
/// through the layout.
pub open spec fn decoder_after(keyboard: Keyboard, byte: u8) -> Keyboard {
    match keyboard_event(keyboard, byte) {
        Some(key_event) => keyboard_processed(keyboard_after(keyboard, byte), key_event),
        None => keyboard_after(keyboard, byte),
    }
}

/// The byte opens a scancode sequence: it is one of the two prefix bytes and
/// comes between sequences.
pub open spec fn opens_sequence(pending: Seq<u8>, byte: u8) -> bool {
    pending.len() == 0 && (byte == 0xE0 || byte == 0xE1)
}

/// The sequence under way after `byte`: the byte itself where it opens a
/// sequence, none else, as a sequence ends with the byte after its prefix.
pub open spec fn pending_after(pending: Seq<u8>, byte: u8) -> Seq<u8> {
    if opens_sequence(pending, byte) {
        seq![byte]
    } else {
        Seq::empty()
    }
}

/// A line of an interrupt controller whose first line is at vector `offset`
/// raises `vector`: a controller has eight lines.
pub open spec fn controller_handles(offset: u8, vector: u8) -> bool {
    offset <= vector < offset + 8
}

impl InterruptIndex {
    /// The vector that the interrupt arrives at.
    pub open spec fn vector(self) -> u8 {
        match self {
            InterruptIndex::Timer => PIC_1_OFFSET,
            InterruptIndex::Keyboard => (PIC_1_OFFSET + 1) as u8,
        }
    }

    /// The vector as a byte, as the interrupt controller takes it.
    pub fn as_u8(self) -> (vector: u8)
        ensures
            vector == self.vector(),
    {
        match self {
            InterruptIndex::Timer => PIC_1_OFFSET,
            InterruptIndex::Keyboard => PIC_1_OFFSET + 1,
        }
    }

    /// The vector as an index into the interrupt descriptor table.
    pub fn as_usize(self) -> (index: usize)
        ensures
            index == self.vector(),
    {
        self.as_u8() as usize
    }
}

impl Handler {
    /// The vector that the handler is bound to.
    pub open spec fn vector(self) -> u8 {
        match self {
            Handler::Breakpoint => BREAKPOINT_VECTOR,
            Handler::PageFault => PAGE_FAULT_VECTOR,
            Handler::DoubleFault => DOUBLE_FAULT_VECTOR,
            Handler::Timer => InterruptIndex::Timer.vector(),
            Handler::Keyboard => InterruptIndex::Keyboard.vector(),
        }
    }

    /// The stack that the handler runs on: the double fault handler has a
    /// stack of its own.
    pub open spec fn stack_index(self) -> Option<u16> {
        match self {
            Handler::DoubleFault => Some(DOUBLE_FAULT_IST_INDEX),
            _ => None,
        }
    }

    /// The slot that binds the handler.
    pub open spec fn entry(self) -> Entry {
        Entry { handler: self, stack_index: self.stack_index() }
    }

    /// The hardware interrupt that the handler serves, if it serves one.
    pub open spec fn interrupt(self) -> Option<InterruptIndex> {
        match self {
            Handler::Timer => Some(InterruptIndex::Timer),
            Handler::Keyboard => Some(InterruptIndex::Keyboard),
            _ => None,
        }
    }
}

/// The slot of `vector` in the table of this kernel: bound where a handler
/// has that vector, else unused.
pub open spec fn kernel_entry(vector: int) -> Option<Entry> {
    if vector == Handler::Breakpoint.vector() {
        Some(Handler::Breakpoint.entry())
    } else if vector == Handler::PageFault.vector() {
        Some(Handler::PageFault.entry())
    } else if vector == Handler::DoubleFault.vector() {
        Some(Handler::DoubleFault.entry())
    } else if vector == Handler::Timer.vector() {
        Some(Handler::Timer.entry())
    } else if vector == Handler::Keyboard.vector() {
        Some(Handler::Keyboard.entry())
    } else {
        None
    }
}

impl InterruptDescriptorTable {
    /// The slots of the table, by vector.
    pub closed spec fn view(&self) -> Seq<Option<Entry>> {
        self.entries@
    }

    /// A table whose slots are all unused.
    pub fn new() -> (table: InterruptDescriptorTable)
        ensures
            table@.len() == 256,
            forall|vector: int| 0 <= vector < 256 ==> table@[vector].is_none(),
    {
        InterruptDescriptorTable { entries: [None; 256] }
    }

    /// Binds `handler` to its vector.
    pub fn set_handler(&mut self, handler: Handler)
        ensures
            final(self)@.len() == 256,
            final(self)@ == old(self)@.update(handler.vector() as int, Some(handler.entry())),
    {
        let entry = match handler {
            Handler::Breakpoint => (BREAKPOINT_VECTOR, None),
            Handler::PageFault => (PAGE_FAULT_VECTOR, None),
            Handler::DoubleFault => (DOUBLE_FAULT_VECTOR, Some(DOUBLE_FAULT_IST_INDEX)),
            Handler::Timer => (InterruptIndex::Timer.as_u8(), None),
            Handler::Keyboard => (InterruptIndex::Keyboard.as_u8(), None),
        };
        self.entries[entry.0 as usize] = Some(Entry { handler, stack_index: entry.1 });
    }

    /// The slot of `vector`.
    pub fn entry(&self, vector: u8) -> (entry: Option<Entry>)
        ensures
            self@.len() == 256,
            entry == self@[vector as int],
    {
        self.entries[vector as usize]
    }
}

/// The interrupt descriptor table of this kernel, with every handler bound:
/// breakpoint, page fault, double fault on its own stack, timer and keyboard.
pub fn init() -> (table: InterruptDescriptorTable)
    ensures
        table@.len() == 256,
        forall|vector: int| 0 <= vector < 256 ==> table@[vector] == kernel_entry(vector),
{
    let mut table = InterruptDescriptorTable::new();
    table.set_handler(Handler::Breakpoint);
    table.set_handler(Handler::PageFault);
    table.set_handler(Handler::DoubleFault);
    table.set_handler(Handler::Timer);
    table.set_handler(Handler::Keyboard);
    table
}

/// Handles a breakpoint: it is reported and the interrupted code goes on.
pub fn breakpoint_handler() -> (outcome: Outcome)
    ensures
        outcome == (Outcome {
            diagnostic: Some(Diagnostic::Breakpoint),
            emit: None,
            acknowledge: Handler::Breakpoint.interrupt(),
            completion: Completion::Resume,
        }),
{
    Outcome {
        diagnostic: Some(Diagnostic::Breakpoint),
        emit: None,
        acknowledge: None,
        completion: Completion::Resume,
    }
}

/// Handles a page fault on an access to `accessed_address`: the address and
/// the error code are reported and the processor halts.
pub fn page_fault_handler(accessed_address: u64, error_code: u64) -> (outcome: Outcome)
    ensures
        outcome == (Outcome {
            diagnostic: Some(Diagnostic::PageFault { accessed_address, error_code }),
            emit: None,
            acknowledge: Handler::PageFault.interrupt(),
            completion: Completion::Halt,
        }),
{
    Outcome {
        diagnostic: Some(Diagnostic::PageFault { accessed_address, error_code }),
        emit: None,
        acknowledge: None,
        completion: Completion::Halt,
    }
}

/// Handles a double fault: it is reported and the processor halts.
pub fn double_fault_handler() -> (outcome: Outcome)
    ensures
        outcome == (Outcome {
            diagnostic: Some(Diagnostic::DoubleFault),
            emit: None,
            acknowledge: Handler::DoubleFault.interrupt(),
            completion: Completion::Halt,
        }),
{
    Outcome {
        diagnostic: Some(Diagnostic::DoubleFault),
        emit: None,
        acknowledge: None,
        completion: Completion::Halt,
    }
}

/// Handles a tick of the timer: the interrupt is acknowledged and the
/// interrupted code goes on.
pub fn timer_interrupt_handler() -> (outcome: Outcome)
    ensures
        outcome == (Outcome {
            diagnostic: None,
            emit: None,
            acknowledge: Handler::Timer.interrupt(),
            completion: Completion::Resume,
        }),
{
    Outcome {
        diagnostic: None,
        emit: None,
        acknowledge: Some(InterruptIndex::Timer),
        completion: Completion::Resume,
    }
}

/// What the keyboard handler asks for once the decoder has answered: a key
/// that stands for a character is printed, any other answer prints nothing,
/// and the interrupt is acknowledged either way.
pub open spec fn key_outcome(decoded: Option<DecodedKey>) -> Outcome {
    Outcome {
        diagnostic: None,
        emit: match decoded {
            Some(DecodedKey::Unicode(character)) => Some(character),
            _ => None,
        },
        acknowledge: Handler::Keyboard.interrupt(),
        completion: Completion::Resume,
    }
}

/// Decides what the keyboard handler asks for, from the answer of the
/// decoder.
pub fn keyboard_outcome(decoded: Option<DecodedKey>) -> (outcome: Outcome)
    ensures
        outcome == key_outcome(decoded),
{
    let emit = match decoded {
        Some(DecodedKey::Unicode(character)) => Some(character),
        _ => None,
    };
    Outcome {
        diagnostic: None,
        emit,
        acknowledge: Some(InterruptIndex::Keyboard),
        completion: Completion::Resume,
    }
}

impl Keyboard {
    /// The scancode sequence that the decoder is in the middle of.
    pub open spec fn pending(self) -> Seq<u8> {
        keyboard_pending(self)
    }

    /// A decoder that has seen no byte yet: it stands between scancode
    /// sequences.
    pub fn new() -> (keyboard: Keyboard)
        ensures
            keyboard.pending() == Seq::<u8>::empty(),
    {
        keyboard_new()
    }
}

/// Handles a keyboard interrupt, given the byte read from the keyboard: the
/// byte goes to the decoder, and where it completes a key event, the event
/// goes through the layout. A key that stands for a character is printed;
/// a byte that completes no key event, is no known scancode or gives a key
/// without a character prints nothing. Whatever the decoder answers, the
/// interrupt is acknowledged once and the interrupted code goes on.
pub fn keyboard_interrupt_handler(keyboard: &mut Keyboard, scancode: u8) -> (outcome: Outcome)
    ensures
        outcome == key_outcome(decoded_key(*old(keyboard), scancode)),
        *final(keyboard) == decoder_after(*old(keyboard), scancode),
        opens_sequence(old(keyboard).pending(), scancode) ==> outcome.emit.is_none(),
        final(keyboard).pending() == pending_after(old(keyboard).pending(), scancode),
{
    let decoded = match keyboard_add_byte(keyboard, scancode) {
        Ok(Some(key_event)) => keyboard_process_keyevent(keyboard, key_event),
        _ => None,
    };
    keyboard_outcome(decoded)
}

/// Hardware interrupts arrive at vectors above the 32 that the processor
/// keeps for its exceptions, on lines of the primary controller, and the
/// lines of the two controllers do not overlap.
pub proof fn law_interrupts_avoid_exceptions(index: InterruptIndex)
    ensures
        index.vector() >= 32,
        controller_handles(PIC_1_OFFSET, index.vector()),
        !controller_handles(PIC_2_OFFSET, index.vector()),
        forall|vector: u8| !(controller_handles(PIC_1_OFFSET, vector) && controller_handles(PIC_2_OFFSET, vector)),
        PIC_2_OFFSET + 8 <= 256,
{
}

/// A handler acknowledges an interrupt exactly if it serves a hardware
/// interrupt, and then the one of its own vector: an exception is never
/// acknowledged.
pub proof fn law_acknowledge_hardware_interrupts_only(handler: Handler)
    ensures
        handler.interrupt().is_some() <==> handler.vector() >= PIC_1_OFFSET,
        handler.interrupt().is_some() ==> handler.interrupt().unwrap().vector() == handler.vector(),
{
}

/// In the table of this kernel the double fault is bound and runs on the
/// stack of its own, and distinct handlers have distinct vectors.
pub proof fn law_double_fault_has_its_stack(first: Handler, second: Handler)
    ensures
        kernel_entry(DOUBLE_FAULT_VECTOR as int) == Some(
            Entry { handler: Handler::DoubleFault, stack_index: Some(DOUBLE_FAULT_IST_INDEX) },
        ),
        kernel_entry(first.vector() as int) == Some(first.entry()),
        first != second ==> first.vector() != second.vector(),
{
}

} // verus!
