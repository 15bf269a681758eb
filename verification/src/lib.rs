/// The execution engine: byte tape, pointer, program counter, pending
/// input and accumulated output, advanced one instruction at a time.
pub mod interpreter;
/// The jump resolver: matches brackets into a jump table.
pub mod jump;
/// The playback controller: turns abstract commands and timer ticks
/// into engine steps.
pub mod playback;
/// The tokenizer: scans source text into position-annotated tokens.
pub mod token;
