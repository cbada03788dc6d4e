use vstd::prelude::*;

use crate::font::{chip_font, chip_font_spec, CHIP_FONT_LEN};

verus! {

/// Display width in pixels.
pub const DISPLAY_WIDTH: u32 = 64;
/// Display height in pixels.
pub const DISPLAY_HEIGHT: u32 = 32;
/// Number of cells of the row-major display buffer.
pub const DISPLAY_DATA_LEN: usize = 2048;
/// Size of the addressable memory in bytes.
pub const MEMORY_CAPACITY: usize = 4096;
/// Number of return addresses the call stack can hold.
pub const STACK_CAPACITY: usize = 16;
/// Address where a program is loaded and execution starts.
pub const START_PC: u16 = 0x200;
/// Largest program that fits between `START_PC` and the end of memory.
pub const MAX_PROGRAM_LEN: usize = 3584;

/// Wrapping addition on 8-bit values.
pub open spec fn add8(a: int, b: int) -> u8 {
    ((a + b) % 256) as u8
}

/// Wrapping addition on 16-bit values.
pub open spec fn add16(a: int, b: int) -> u16 {
    ((a + b) % 65536) as u16
}

/// Wrapping subtraction on 8-bit values.
pub open spec fn sub8(a: int, b: int) -> u8 {
    ((a - b) % 256) as u8
}

/// Memory address `base + offset`, wrapped into the 4 KiB address space.
pub open spec fn addr(base: int, offset: int) -> int {
    (base + offset) % 4096
}

/// Keys are indexed by their code; codes above 0xF are clamped to 0xF.
pub open spec fn key_index(k: u8) -> int {
    if k < 16 { k as int } else { 15 }
}

/// The sprite column that lands on display cell `idx` when the sprite's left
/// edge is at `vx`.
pub open spec fn cell_col(vx: int, idx: int) -> int {
    (idx % 64 - vx) % 64
}

/// The sprite row that lands on display cell `idx` when the sprite's top
/// edge is at `vy`.
pub open spec fn cell_row(vy: int, idx: int) -> int {
    (idx / 64 - vy) % 32
}

/// Sprite pixel `(row, col)` drawn at `(vx, vy)` lands on exactly one cell.
pub(crate) proof fn lemma_cell(vx: int, vy: int, row: int, col: int, k: int)
    requires
        0 <= vx,
        0 <= vy,
        0 <= row < 32,
        0 <= col < 64,
        0 <= k < DISPLAY_DATA_LEN,
    ensures
        ({
            let idx = ((vy + row) % 32) * 64 + (vx + col) % 64;
            &&& 0 <= idx < DISPLAY_DATA_LEN
            &&& cell_col(vx, idx) == col
            &&& cell_row(vy, idx) == row
            &&& (cell_col(vx, k) == col && cell_row(vy, k) == row ==> k == idx)
        }),
{
    let cy = (vy + row) % 32;
    let cx = (vx + col) % 64;
    let idx = cy * 64 + cx;
    assert(0 <= cy < 32 && 0 <= cx < 64);
    assert(idx % 64 == cx && idx / 64 == cy) by (nonlinear_arith)
        requires
            idx == cy * 64 + cx,
            0 <= cy < 32,
            0 <= cx < 64,
    ;
    assert((cx - vx) % 64 == col) by (nonlinear_arith)
        requires
            cx == (vx + col) % 64,
            0 <= col < 64,
            0 <= vx,
    ;
    assert((cy - vy) % 32 == row) by (nonlinear_arith)
        requires
            cy == (vy + row) % 32,
            0 <= row < 32,
            0 <= vy,
    ;
    if cell_col(vx, k) == col && cell_row(vy, k) == row {
        let kx = k % 64;
        let ky = k / 64;
        assert(k == ky * 64 + kx && 0 <= kx < 64 && 0 <= ky < 32) by (nonlinear_arith)
            requires
                kx == k % 64,
                ky == k / 64,
                0 <= k < 2048,
        ;
        assert(kx == cx) by (nonlinear_arith)
            requires
                (kx - vx) % 64 == col,
                cx == (vx + col) % 64,
                0 <= kx < 64,
                0 <= vx,
        ;
        assert(ky == cy) by (nonlinear_arith)
            requires
                (ky - vy) % 32 == row,
                cy == (vy + row) % 32,
                0 <= ky < 32,
                0 <= vy,
        ;
    }
}

/// Whether column `col` (0 = leftmost) of a sprite row `b` is set.
pub open spec fn sprite_bit(b: u8, col: int) -> bool {
    (b >> ((7 - col) as u8)) & 1u8 == 1u8
}

/// The pseudo-random byte produced at a given step counter value.
pub open spec fn random_byte(tick: u16) -> u8 {
    (((tick as int * 40503 + 12345) / 128) % 256) as u8
}

/// A decoded instruction word. `x` and `y` name registers, `nnn` is a
/// 12-bit address, `kk` a byte and `n` a nibble.
#[derive(Clone, Copy, Debug, PartialEq, Eq, Structural)]
pub enum Instruction {
    /// `0nnn`: machine-code routine; ignored.
    Sys { nnn: u16 },
    /// `00E0`
    Clear,
    /// `00EE`
    Return,
    /// `1nnn`
    Jump { nnn: u16 },
    /// `2nnn`
    Call { nnn: u16 },
    /// `3xkk`
    SkipEqByte { x: u8, kk: u8 },
    /// `4xkk`
    SkipNeqByte { x: u8, kk: u8 },
    /// `5xy_`
    SkipEqReg { x: u8, y: u8 },
    /// `6xkk`
    SetByte { x: u8, kk: u8 },
    /// `7xkk`
    AddByte { x: u8, kk: u8 },
    /// `8xy0`
    SetReg { x: u8, y: u8 },
    /// `8xy1`
    Or { x: u8, y: u8 },
    /// `8xy2`
    And { x: u8, y: u8 },
    /// `8xy3`
    Xor { x: u8, y: u8 },
    /// `8xy4`
    AddReg { x: u8, y: u8 },
    /// `8xy5`
    SubReg { x: u8, y: u8 },
    /// `8xy6`
    ShiftRight { x: u8 },
    /// `8xy7`
    SubRev { x: u8, y: u8 },
    /// `8xyE`
    ShiftLeft { x: u8 },
    /// `9xy0`
    SkipNeqReg { x: u8, y: u8 },
    /// `Annn`
    SetIndex { nnn: u16 },
    /// `Bnnn`
    JumpV0 { nnn: u16 },
    /// `Cxkk`
    Random { x: u8, kk: u8 },
    /// `Dxyn`
    Draw { x: u8, y: u8, n: u8 },
    /// `Ex9E`
    SkipPressed { x: u8 },
    /// `ExA1`
    SkipNotPressed { x: u8 },
    /// `Fx07`
    GetDelay { x: u8 },
    /// `Fx0A`
    WaitKey { x: u8 },
    /// `Fx15`
    SetDelay { x: u8 },
    /// `Fx18`
    SetSound { x: u8 },
    /// `Fx1E`
    AddIndex { x: u8 },
    /// `Fx29`
    FontSprite { x: u8 },
    /// `Fx33`
    StoreBcd { x: u8 },
    /// `Fx55`
    StoreRegs { x: u8 },
    /// `Fx65`
    LoadRegs { x: u8 },
    /// Any other word; ignored.
    Unknown { word: u16 },
}

/// The instruction that a 16-bit word encodes.
pub open spec fn decode_spec(w: u16) -> Instruction {
    let a = w / 0x1000;
    let x = ((w / 0x100) % 0x10) as u8;
    let y = ((w / 0x10) % 0x10) as u8;
    let d = w % 0x10;
    let nnn = w % 0x1000;
    let kk = (w % 0x100) as u8;
    let fx = w % 0x100;
    if w == 0x00E0 {
        Instruction::Clear
    } else if w == 0x00EE {
        Instruction::Return
    } else if a == 0x0 {
        Instruction::Sys { nnn }
    } else if a == 0x1 {
        Instruction::Jump { nnn }
    } else if a == 0x2 {
        Instruction::Call { nnn }
    } else if a == 0x3 {
        Instruction::SkipEqByte { x, kk }
    } else if a == 0x4 {
        Instruction::SkipNeqByte { x, kk }
    } else if a == 0x5 {
        Instruction::SkipEqReg { x, y }
    } else if a == 0x6 {
        Instruction::SetByte { x, kk }
    } else if a == 0x7 {
        Instruction::AddByte { x, kk }
    } else if a == 0x8 && d == 0x0 {
        Instruction::SetReg { x, y }
    } else if a == 0x8 && d == 0x1 {
        Instruction::Or { x, y }
    } else if a == 0x8 && d == 0x2 {
        Instruction::And { x, y }
    } else if a == 0x8 && d == 0x3 {
        Instruction::Xor { x, y }
    } else if a == 0x8 && d == 0x4 {
        Instruction::AddReg { x, y }
    } else if a == 0x8 && d == 0x5 {
        Instruction::SubReg { x, y }
    } else if a == 0x8 && d == 0x6 {
        Instruction::ShiftRight { x }
    } else if a == 0x8 && d == 0x7 {
        Instruction::SubRev { x, y }
    } else if a == 0x8 && d == 0xE {
        Instruction::ShiftLeft { x }
    } else if a == 0x9 && d == 0x0 {
        Instruction::SkipNeqReg { x, y }
    } else if a == 0xA {
        Instruction::SetIndex { nnn }
    } else if a == 0xB {
        Instruction::JumpV0 { nnn }
    } else if a == 0xC {
        Instruction::Random { x, kk }
    } else if a == 0xD {
        Instruction::Draw { x, y, n: d as u8 }
    } else if a == 0xE && fx == 0x9E {
        Instruction::SkipPressed { x }
    } else if a == 0xE && fx == 0xA1 {
        Instruction::SkipNotPressed { x }
    } else if a == 0xF && fx == 0x07 {
        Instruction::GetDelay { x }
    } else if a == 0xF && fx == 0x0A {
        Instruction::WaitKey { x }
    } else if a == 0xF && fx == 0x15 {
        Instruction::SetDelay { x }
    } else if a == 0xF && fx == 0x18 {
        Instruction::SetSound { x }
    } else if a == 0xF && fx == 0x1E {
        Instruction::AddIndex { x }
    } else if a == 0xF && fx == 0x29 {
        Instruction::FontSprite { x }
    } else if a == 0xF && fx == 0x33 {
        Instruction::StoreBcd { x }
    } else if a == 0xF && fx == 0x55 {
        Instruction::StoreRegs { x }
    } else if a == 0xF && fx == 0x65 {
        Instruction::LoadRegs { x }
    } else {
        Instruction::Unknown { word: w }
    }
}


/// Splits an instruction word into its operation and operands.
pub fn decode(w: u16) -> (r: Instruction)
    ensures
        r == decode_spec(w),
        r.wf(),
{
    let a: u16 = w / 0x1000;
    let x: u8 = ((w / 0x100) % 0x10) as u8;
    let y: u8 = ((w / 0x10) % 0x10) as u8;
    let d: u16 = w % 0x10;
    let nnn: u16 = w % 0x1000;
    let kk: u8 = (w % 0x100) as u8;
    let fx: u16 = w % 0x100;
    if w == 0x00E0 {
        Instruction::Clear
    } else if w == 0x00EE {
        Instruction::Return
    } else if a == 0x0 {
        Instruction::Sys { nnn }
    } else if a == 0x1 {
        Instruction::Jump { nnn }
    } else if a == 0x2 {
        Instruction::Call { nnn }
    } else if a == 0x3 {
        Instruction::SkipEqByte { x, kk }
    } else if a == 0x4 {
        Instruction::SkipNeqByte { x, kk }
    } else if a == 0x5 {
        Instruction::SkipEqReg { x, y }
    } else if a == 0x6 {
        Instruction::SetByte { x, kk }
    } else if a == 0x7 {
        Instruction::AddByte { x, kk }
    } else if a == 0x8 && d == 0x0 {
        Instruction::SetReg { x, y }
    } else if a == 0x8 && d == 0x1 {
        Instruction::Or { x, y }
    } else if a == 0x8 && d == 0x2 {
        Instruction::And { x, y }
    } else if a == 0x8 && d == 0x3 {
        Instruction::Xor { x, y }
    } else if a == 0x8 && d == 0x4 {
        Instruction::AddReg { x, y }
    } else if a == 0x8 && d == 0x5 {
        Instruction::SubReg { x, y }
    } else if a == 0x8 && d == 0x6 {
        Instruction::ShiftRight { x }
    } else if a == 0x8 && d == 0x7 {
        Instruction::SubRev { x, y }
    } else if a == 0x8 && d == 0xE {
        Instruction::ShiftLeft { x }
    } else if a == 0x9 && d == 0x0 {
        Instruction::SkipNeqReg { x, y }
    } else if a == 0xA {
        Instruction::SetIndex { nnn }
    } else if a == 0xB {
        Instruction::JumpV0 { nnn }
    } else if a == 0xC {
        Instruction::Random { x, kk }
    } else if a == 0xD {
        Instruction::Draw { x, y, n: d as u8 }
    } else if a == 0xE && fx == 0x9E {
        Instruction::SkipPressed { x }
    } else if a == 0xE && fx == 0xA1 {
        Instruction::SkipNotPressed { x }
    } else if a == 0xF && fx == 0x07 {
        Instruction::GetDelay { x }
    } else if a == 0xF && fx == 0x0A {
        Instruction::WaitKey { x }
    } else if a == 0xF && fx == 0x15 {
        Instruction::SetDelay { x }
    } else if a == 0xF && fx == 0x18 {
        Instruction::SetSound { x }
    } else if a == 0xF && fx == 0x1E {
        Instruction::AddIndex { x }
    } else if a == 0xF && fx == 0x29 {
        Instruction::FontSprite { x }
    } else if a == 0xF && fx == 0x33 {
        Instruction::StoreBcd { x }
    } else if a == 0xF && fx == 0x55 {
        Instruction::StoreRegs { x }
    } else if a == 0xF && fx == 0x65 {
        Instruction::LoadRegs { x }
    } else {
        Instruction::Unknown { word: w }
    }
}

impl Instruction {
    /// Register operands name one of the 16 registers and addresses fit in 12 bits.
    pub open spec fn wf(self) -> bool {
        match self {
            Instruction::Sys { nnn } => nnn < 0x1000,
            Instruction::Jump { nnn } => nnn < 0x1000,
            Instruction::Call { nnn } => nnn < 0x1000,
            Instruction::SetIndex { nnn } => nnn < 0x1000,
            Instruction::JumpV0 { nnn } => nnn < 0x1000,
            Instruction::SkipEqByte { x, kk } => x < 16,
            Instruction::SkipNeqByte { x, kk } => x < 16,
            Instruction::SetByte { x, kk } => x < 16,
            Instruction::AddByte { x, kk } => x < 16,
            Instruction::Random { x, kk } => x < 16,
            Instruction::SkipEqReg { x, y } => x < 16 && y < 16,
            Instruction::SetReg { x, y } => x < 16 && y < 16,
            Instruction::Or { x, y } => x < 16 && y < 16,
            Instruction::And { x, y } => x < 16 && y < 16,
            Instruction::Xor { x, y } => x < 16 && y < 16,
            Instruction::AddReg { x, y } => x < 16 && y < 16,
            Instruction::SubReg { x, y } => x < 16 && y < 16,
            Instruction::SubRev { x, y } => x < 16 && y < 16,
            Instruction::SkipNeqReg { x, y } => x < 16 && y < 16,
            Instruction::Draw { x, y, n } => x < 16 && y < 16 && n < 16,
            Instruction::ShiftRight { x } => x < 16,
            Instruction::ShiftLeft { x } => x < 16,
            Instruction::SkipPressed { x } => x < 16,
            Instruction::SkipNotPressed { x } => x < 16,
            Instruction::GetDelay { x } => x < 16,
            Instruction::WaitKey { x } => x < 16,
            Instruction::SetDelay { x } => x < 16,
            Instruction::SetSound { x } => x < 16,
            Instruction::AddIndex { x } => x < 16,
            Instruction::FontSprite { x } => x < 16,
            Instruction::StoreBcd { x } => x < 16,
            Instruction::StoreRegs { x } => x < 16,
            Instruction::LoadRegs { x } => x < 16,
            Instruction::Clear => true,
            Instruction::Return => true,
            Instruction::Unknown { word } => true,
        }
    }
}

/// The abstract state of the machine.
pub struct CpuView {
    pub ready: bool,
    /// Registers V0..VF.
    pub v: Seq<u8>,
    /// Index register.
    pub i: u16,
    /// Program counter.
    pub pc: u16,
    /// Stack pointer: the slot the next call writes.
    pub sp: u8,
    /// Delay timer.
    pub dt: u8,
    /// Sound timer.
    pub st: u8,
    pub stack: Seq<u16>,
    pub memory: Seq<u8>,
    /// Row-major pixels, `DISPLAY_WIDTH` per row.
    pub display: Seq<bool>,
    /// Number of instructions executed, wrapping.
    pub tick: u16,
    /// Whether the current step still advances the program counter by 2.
    pub advance: bool,
    pub display_changed: bool,
    /// The register waiting for a key press, if any.
    pub waiting: Option<u8>,
    pub buttons: Seq<bool>,
}

impl CpuView {
    /// Sequences have their machine sizes, the stack pointer names a slot
    /// and a waiting register names one of the 16 registers.
    pub open spec fn wf(self) -> bool {
        &&& self.v.len() == 16
        &&& self.stack.len() == STACK_CAPACITY
        &&& self.memory.len() == MEMORY_CAPACITY
        &&& self.display.len() == DISPLAY_DATA_LEN
        &&& self.buttons.len() == 16
        &&& self.sp < STACK_CAPACITY
        &&& (self.waiting matches Some(r) ==> r < 16)
    }

    /// Memory right after construction: the font at address 0, zeros elsewhere.
    pub open spec fn initial_memory() -> Seq<u8> {
        Seq::new(MEMORY_CAPACITY as nat, |k: int| if k < CHIP_FONT_LEN { chip_font_spec()[k] } else { 0u8 })
    }

    /// The freshly constructed machine: font loaded, everything else zeroed.
    pub open spec fn initial() -> CpuView {
        CpuView {
            ready: false,
            v: Seq::new(16, |k: int| 0u8),
            i: 0,
            pc: START_PC,
            sp: 0,
            dt: 0,
            st: 0,
            stack: Seq::new(STACK_CAPACITY as nat, |k: int| 0u16),
            memory: Self::initial_memory(),
            display: Seq::new(DISPLAY_DATA_LEN as nat, |k: int| false),
            tick: 0,
            advance: true,
            display_changed: false,
            waiting: None,
            buttons: Seq::new(16, |k: int| false),
        }
    }

    /// `restart`: everything back to its initial value except memory and the
    /// loaded flag.
    pub open spec fn restarted(self) -> CpuView {
        CpuView { memory: self.memory, ready: self.ready, ..Self::initial() }
    }

    pub open spec fn set_reg(self, x: int, val: u8) -> CpuView {
        CpuView { v: self.v.update(x, val), ..self }
    }

    /// Skips the next instruction when `cond` holds.
    pub open spec fn skip_if(self, cond: bool) -> CpuView {
        if cond { CpuView { pc: add16(self.pc as int, 2), ..self } } else { self }
    }

    pub open spec fn key_pressed(self, k: u8) -> bool {
        self.buttons[key_index(k)]
    }

    pub open spec fn timers_ticked(self) -> CpuView {
        CpuView {
            dt: if self.dt > 0 { (self.dt - 1) as u8 } else { 0 },
            st: if self.st > 0 { (self.st - 1) as u8 } else { 0 },
            ..self
        }
    }

    pub open spec fn pressed(self, k: u8) -> CpuView {
        let s = CpuView { buttons: self.buttons.update(key_index(k), true), ..self };
        match self.waiting {
            Some(r) => CpuView { waiting: None, ..s.set_reg(r as int, key_index(k) as u8) },
            None => s,
        }
    }

    pub open spec fn released(self, k: u8) -> CpuView {
        CpuView { buttons: self.buttons.update(key_index(k), false), ..self }
    }

    /// Whether the sprite drawn at `(vx, vy)` with `n` rows read from `I`
    /// covers display cell `idx` with a set pixel. Coordinates wrap around
    /// the display edges.
    pub open spec fn sprite_hit(self, vx: int, vy: int, n: int, idx: int) -> bool {
        let col = cell_col(vx, idx);
        let row = cell_row(vy, idx);
        row < n && col < 8 && sprite_bit(self.memory[addr(self.i as int, row)], col)
    }

    /// Whether drawing the sprite turns off a pixel that was on.
    pub open spec fn sprite_collides(self, vx: int, vy: int, n: int) -> bool {
        exists|k: int| 0 <= k < DISPLAY_DATA_LEN && #[trigger] self.sprite_hit(vx, vy, n, k) && self.display[k]
    }

    /// The display after XOR-ing the sprite onto it.
    pub open spec fn display_xor(self, vx: int, vy: int, n: int) -> Seq<bool> {
        Seq::new(DISPLAY_DATA_LEN as nat, |k: int| self.display[k] != self.sprite_hit(vx, vy, n, k))
    }

    /// `00E0`: all pixels off.
    pub open spec fn clear(self) -> CpuView {
        CpuView { display: Seq::new(DISPLAY_DATA_LEN as nat, |k: int| false), display_changed: true, ..self }
    }

    /// `Dxyn`: XOR an `n`-row sprite from memory at `I` onto the display at
    /// `(Vx, Vy)`; VF tells whether a pixel was turned off.
    pub open spec fn draw(self, x: u8, y: u8, n: u8) -> CpuView {
        let vx = self.v[x as int] as int;
        let vy = self.v[y as int] as int;
        let flag: u8 = if self.sprite_collides(vx, vy, n as int) { 1 } else { 0 };
        CpuView { display: self.display_xor(vx, vy, n as int), display_changed: true, ..self }.set_reg(15, flag)
    }

    /// `1nnn`: continue at `nnn`, without the automatic advance.
    pub open spec fn jump(self, a: u16) -> CpuView {
        CpuView { pc: a, advance: false, ..self }
    }

    /// `2nnn`: push the program counter, then jump. The stack pointer
    /// saturates at the last slot.
    pub open spec fn call(self, a: u16) -> CpuView {
        let sp: u8 = if self.sp + 1 < STACK_CAPACITY { (self.sp + 1) as u8 } else { (STACK_CAPACITY - 1) as u8 };
        CpuView { stack: self.stack.update(self.sp as int, self.pc), sp, ..self }.jump(a)
    }

    /// `00EE`: pop the return address; the stack pointer saturates at 0.
    pub open spec fn ret(self) -> CpuView {
        let sp: u8 = if self.sp > 0 { (self.sp - 1) as u8 } else { 0 };
        CpuView { sp, pc: self.stack[sp as int], ..self }
    }

    /// `7xkk`: Vx += kk, wrapping; VF untouched.
    pub open spec fn add_vx_byte(self, x: u8, kk: u8) -> CpuView {
        self.set_reg(x as int, add8(self.v[x as int] as int, kk as int))
    }

    /// `8xy4`: Vx += Vy, wrapping; then VF = carry.
    pub open spec fn add_vx_vy(self, x: u8, y: u8) -> CpuView {
        let a = self.v[x as int] as int;
        let b = self.v[y as int] as int;
        self.set_reg(x as int, add8(a, b)).set_reg(15, if a + b > 255 { 1 } else { 0 })
    }

    /// `8xy5`: Vx -= Vy, wrapping; then VF = 1 when no borrow occurred.
    pub open spec fn sub_vx_vy(self, x: u8, y: u8) -> CpuView {
        let a = self.v[x as int] as int;
        let b = self.v[y as int] as int;
        self.set_reg(x as int, sub8(a, b)).set_reg(15, if a >= b { 1 } else { 0 })
    }

    /// `8xy7`: Vx = Vy - Vx, wrapping; then VF = 1 when no borrow occurred.
    pub open spec fn sub_vy_vx(self, y: u8, x: u8) -> CpuView {
        let a = self.v[y as int] as int;
        let b = self.v[x as int] as int;
        self.set_reg(x as int, sub8(a, b)).set_reg(15, if a >= b { 1 } else { 0 })
    }

    /// `8xy6`: Vx >>= 1; then VF = the bit shifted out.
    pub open spec fn shift_right(self, x: u8) -> CpuView {
        let a = self.v[x as int];
        self.set_reg(x as int, a >> 1u8).set_reg(15, a & 1u8)
    }

    /// `8xyE`: Vx <<= 1; then VF = the raw top bit (0x00 or 0x80).
    pub open spec fn shift_left(self, x: u8) -> CpuView {
        let a = self.v[x as int];
        self.set_reg(x as int, ((a as int * 2) % 256) as u8).set_reg(15, a & 0x80u8)
    }

    /// `Fx33`: hundreds, tens and ones of Vx at I, I+1, I+2.
    pub open spec fn store_bcd(self, x: u8) -> CpuView {
        let a = self.v[x as int];
        let i = self.i as int;
        CpuView {
            memory: self.memory.update(addr(i, 0), a / 100).update(addr(i, 1), (a % 100) / 10).update(
                addr(i, 2),
                a % 10,
            ),
            ..self
        }
    }

    /// `Fx55`: V0..=Vx to memory at I.., I unchanged.
    pub open spec fn store_through(self, x: u8) -> CpuView {
        let i = self.i as int;
        CpuView {
            memory: Seq::new(
                MEMORY_CAPACITY as nat,
                |a: int| if (a - i) % 4096 <= x as int { self.v[(a - i) % 4096] } else { self.memory[a] },
            ),
            ..self
        }
    }

    /// The effect of executing one decoded instruction (the program counter
    /// advance is added by `step`).
    #[verifier::opaque]
    pub open spec fn exec(self, ins: Instruction) -> CpuView {
        let v = self.v;
        match ins {
            Instruction::Sys { nnn } => self,
            Instruction::Unknown { word } => self,
            Instruction::Clear => self.clear(),
            Instruction::Return => self.ret(),
            Instruction::Jump { nnn } => self.jump(nnn),
            Instruction::JumpV0 { nnn } => self.jump((nnn + v[0]) as u16),
            Instruction::Call { nnn } => self.call(nnn),
            Instruction::SkipEqByte { x, kk } => self.skip_if(v[x as int] == kk),
            Instruction::SkipNeqByte { x, kk } => self.skip_if(v[x as int] != kk),
            Instruction::SkipEqReg { x, y } => self.skip_if(v[x as int] == v[y as int]),
            Instruction::SkipNeqReg { x, y } => self.skip_if(v[x as int] != v[y as int]),
            Instruction::SetByte { x, kk } => self.set_reg(x as int, kk),
            Instruction::AddByte { x, kk } => self.add_vx_byte(x, kk),
            Instruction::SetReg { x, y } => self.set_reg(x as int, v[y as int]),
            Instruction::Or { x, y } => self.set_reg(x as int, v[x as int] | v[y as int]),
            Instruction::And { x, y } => self.set_reg(x as int, v[x as int] & v[y as int]),
            Instruction::Xor { x, y } => self.set_reg(x as int, v[x as int] ^ v[y as int]),
            Instruction::AddReg { x, y } => self.add_vx_vy(x, y),
            Instruction::SubReg { x, y } => self.sub_vx_vy(x, y),
            Instruction::SubRev { x, y } => self.sub_vy_vx(y, x),
            Instruction::ShiftRight { x } => self.shift_right(x),
            Instruction::ShiftLeft { x } => self.shift_left(x),
            Instruction::Random { x, kk } => self.set_reg(x as int, random_byte(self.tick) & kk),
            Instruction::Draw { x, y, n } => self.draw(x, y, n),
            Instruction::GetDelay { x } => self.set_reg(x as int, self.dt),
            Instruction::SetDelay { x } => CpuView { dt: v[x as int], ..self },
            Instruction::SetSound { x } => CpuView { st: v[x as int], ..self },
            Instruction::SetIndex { nnn } => CpuView { i: nnn, ..self },
            Instruction::AddIndex { x } => CpuView { i: add16(self.i as int, v[x as int] as int), ..self },
            Instruction::FontSprite { x } => CpuView { i: (v[x as int] * 5) as u16, ..self },
            Instruction::SkipPressed { x } => self.skip_if(self.key_pressed(v[x as int])),
            Instruction::SkipNotPressed { x } => self.skip_if(!self.key_pressed(v[x as int])),
            Instruction::WaitKey { x } => CpuView { waiting: Some(x), ..self },
            Instruction::StoreBcd { x } => self.store_bcd(x),
            Instruction::StoreRegs { x } => self.store_through(x),
            Instruction::LoadRegs { x } => self.read_through(x),
        }
    }

    /// The instruction word at the program counter (addresses wrap at 4 KiB).
    pub open spec fn fetch(self) -> u16 {
        (self.memory[addr(self.pc as int, 0)] * 256 + self.memory[addr(self.pc as int, 1)]) as u16
    }

    /// One `step`: nothing while a key press is awaited; otherwise count the
    /// step, execute the instruction at the program counter and move past it
    /// unless it jumped.
    pub open spec fn step(self) -> CpuView {
        if self.waiting is Some {
            self
        } else {
            let s = CpuView { tick: add16(self.tick as int, 1), advance: true, ..self };
            let t = s.exec(decode_spec(s.fetch()));
            if t.advance { CpuView { pc: add16(t.pc as int, 2), ..t } } else { t }
        }
    }

    /// `Fx65`: V0..=Vx from memory at I.., I unchanged.
    pub open spec fn read_through(self, x: u8) -> CpuView {
        let i = self.i as int;
        CpuView {
            v: Seq::new(16, |k: int| if k <= x as int { self.memory[addr(i, k)] } else { self.v[k] }),
            ..self
        }
    }
}

} // verus!

verus! {

/// Why a program image was refused.
#[derive(Clone, Copy, Debug, PartialEq, Eq, Structural)]
pub enum LoadError {
    /// The image is longer than `MAX_PROGRAM_LEN` bytes.
    OversizedProgram,
}

/// The CHIP-8 machine.
pub struct Cpu {
    ready: bool,
    v: [u8; 16],
    i: u16,
    pc: u16,
    sp: u8,
    dt: u8,
    /// Sound timer: the buzzer sounds while it is above zero.
    pub st: u8,
    stack: [u16; STACK_CAPACITY],
    memory: [u8; MEMORY_CAPACITY],
    /// Row-major pixels, `DISPLAY_WIDTH` per row.
    pub display: [bool; DISPLAY_DATA_LEN],
    tick: u16,
    jump_next: bool,
    /// Set by every clear and draw.
    pub display_changed: bool,
    waiting_button_for: Option<u8>,
    buttons: [bool; 16],
}

impl View for Cpu {
    type V = CpuView;

    closed spec fn view(&self) -> CpuView {
        CpuView {
            ready: self.ready,
            v: self.v@,
            i: self.i,
            pc: self.pc,
            sp: self.sp,
            dt: self.dt,
            st: self.st,
            stack: self.stack@,
            memory: self.memory@,
            display: self.display@,
            tick: self.tick,
            advance: self.jump_next,
            display_changed: self.display_changed,
            waiting: self.waiting_button_for,
            buttons: self.buttons@,
        }
    }
}

impl Default for Cpu {
    /// A machine with the font in memory and everything else zeroed.
    fn default() -> (r: Self)
        ensures
            r@ == CpuView::initial(),
            r.wf(),
    {
        let mut memory = [0u8; MEMORY_CAPACITY];
        let font = chip_font();
        let mut k: usize = 0;
        while k < CHIP_FONT_LEN
            invariant
                k <= CHIP_FONT_LEN,
                font@ == chip_font_spec(),
                memory@.len() == MEMORY_CAPACITY,
                forall|j: int| 0 <= j < MEMORY_CAPACITY ==> memory@[j] == (if j < k { chip_font_spec()[j] } else { 0u8 }),
            decreases CHIP_FONT_LEN - k,
        {
            memory[k] = font[k];
            k += 1;
        }
        let r = Cpu {
            ready: false,
            v: [0; 16],
            i: 0,
            pc: START_PC,
            sp: 0,
            dt: 0,
            st: 0,
            stack: [0; STACK_CAPACITY],
            memory,
            display: [false; DISPLAY_DATA_LEN],
            tick: 0,
            jump_next: true,
            display_changed: false,
            waiting_button_for: None,
            buttons: [false; 16],
        };
        assert(r@.memory =~= CpuView::initial_memory());
        assert(r@.v =~= CpuView::initial().v);
        assert(r@.stack =~= CpuView::initial().stack);
        assert(r@.display =~= CpuView::initial().display);
        assert(r@.buttons =~= CpuView::initial().buttons);
        r
    }
}

impl Cpu {
    /// The machine's invariant: the stack pointer and a pending key-wait
    /// register stay in range.
    pub open spec fn wf(&self) -> bool {
        self@.wf()
    }

    /// Copies a program image to `START_PC` and marks the machine loaded.
    /// An image that does not fit is refused and nothing changes.
    pub fn load(&mut self, bytes: &[u8]) -> (r: Result<(), LoadError>)
        requires
            old(self).wf(),
        ensures
            final(self).wf(),
            bytes@.len() <= MAX_PROGRAM_LEN ==> r is Ok && final(self)@ == (CpuView {
                memory: Seq::new(
                    MEMORY_CAPACITY as nat,
                    |a: int|
                        if START_PC <= a < START_PC + bytes@.len() {
                            bytes@[a - START_PC]
                        } else {
                            old(self)@.memory[a]
                        },
                ),
                ready: true,
                ..old(self)@
            }),
            bytes@.len() > MAX_PROGRAM_LEN ==> r == Err::<(), LoadError>(LoadError::OversizedProgram)
                && final(self)@ == old(self)@,
    {
        if bytes.len() > MAX_PROGRAM_LEN {
            return Err(LoadError::OversizedProgram);
        }
        let start = START_PC as usize;
        let ghost before = self.memory@;
        let mut k: usize = 0;
        while k < bytes.len()
            invariant
                k <= bytes@.len() <= MAX_PROGRAM_LEN,
                start == START_PC,
                self@ == (CpuView { memory: self@.memory, ..old(self)@ }),
                self.memory@.len() == MEMORY_CAPACITY,
                before == old(self)@.memory,
                forall|a: int|
                    0 <= a < MEMORY_CAPACITY ==> self.memory@[a] == (if START_PC <= a < START_PC + k {
                        bytes@[a - START_PC]
                    } else {
                        before[a]
                    }),
            decreases bytes@.len() - k,
        {
            self.memory[start + k] = bytes[k];
            k += 1;
        }
        self.ready = true;
        assert(self@.memory =~= Seq::new(
            MEMORY_CAPACITY as nat,
            |a: int|
                if START_PC <= a < START_PC + bytes@.len() {
                    bytes@[a - START_PC]
                } else {
                    old(self)@.memory[a]
                },
        ));
        Ok(())
    }

    /// Resets everything, memory included.
    pub fn unload(&mut self)
        ensures
            final(self)@ == CpuView::initial(),
            final(self).wf(),
    {
        *self = Self::default();
        self.ready = false;
    }

    /// Resets registers, timers, stack, display and input; memory and the
    /// loaded program are kept.
    pub fn restart(&mut self)
        requires
            old(self).wf(),
        ensures
            final(self)@ == old(self)@.restarted(),
            final(self).wf(),
    {
        let memory = self.memory;
        let ready = self.ready;
        *self = Self::default();
        self.memory = memory;
        self.ready = ready;
    }

    /// Register Vx.
    pub fn get(&self, x: u8) -> (r: u8)
        requires
            x < 16,
        ensures
            r == self@.v[x as int],
    {
        self.v[x as usize]
    }

    /// Sets register Vx and returns the value written.
    pub fn set(&mut self, x: u8, value: u8) -> (r: u8)
        requires
            x < 16,
        ensures
            final(self)@ == old(self)@.set_reg(x as int, value),
            r == value,
    {
        self.v[x as usize] = value;
        value
    }
}


impl Cpu {
    /// One timer tick: delay and sound timers count down by one, stopping at 0.
    pub fn step_timers(&mut self)
        requires
            old(self).wf(),
        ensures
            final(self)@ == old(self)@.timers_ticked(),
            final(self).wf(),
    {
        self.dt = self.dt.saturating_sub(1);
        self.st = self.st.saturating_sub(1);
    }

    /// Key `btn` went down. A pending key-wait receives the key and ends.
    pub fn button_pressed(&mut self, btn: u8)
        requires
            old(self).wf(),
        ensures
            final(self)@ == old(self)@.pressed(btn),
            final(self).wf(),
    {
        let key = clamp_key(btn);
        self.buttons[key as usize] = true;
        if let Some(wait_for) = self.waiting_button_for {
            self.set(wait_for, key);
            self.waiting_button_for = None;
        }
    }

    /// Key `btn` went up.
    pub fn button_released(&mut self, btn: u8)
        requires
            old(self).wf(),
        ensures
            final(self)@ == old(self)@.released(btn),
            final(self).wf(),
    {
        let key = clamp_key(btn);
        self.buttons[key as usize] = false;
    }

    fn is_btn_pressed(&self, btn: u8) -> (r: bool)
        ensures
            r == self@.key_pressed(btn),
    {
        self.buttons[clamp_key(btn) as usize]
    }

    /// `00E0`
    pub fn clear(&mut self)
        requires
            old(self).wf(),
        ensures
            final(self)@ == old(self)@.clear(),
            forall|k: int| 0 <= k < DISPLAY_DATA_LEN ==> !final(self)@.display[k],
            final(self)@.display_changed,
            final(self).wf(),
    {
        let mut k: usize = 0;
        while k < DISPLAY_DATA_LEN
            invariant
                k <= DISPLAY_DATA_LEN,
                self@ == (CpuView { display: self@.display, ..old(self)@ }),
                self@.display.len() == DISPLAY_DATA_LEN,
                forall|j: int| 0 <= j < k ==> !self@.display[j],
            decreases DISPLAY_DATA_LEN - k,
        {
            self.display[k] = false;
            k += 1;
        }
        self.display_changed = true;
        assert(self@.display =~= old(self)@.clear().display);
    }

    /// `1nnn`
    pub fn jump(&mut self, addr: u16)
        requires
            old(self).wf(),
        ensures
            final(self)@ == old(self)@.jump(addr),
            final(self).wf(),
    {
        self.pc = addr;
        self.jump_next = false;
    }

    /// `2nnn`
    pub fn call(&mut self, addr: u16)
        requires
            old(self).wf(),
        ensures
            final(self)@ == old(self)@.call(addr),
            final(self).wf(),
    {
        self.stack[self.sp as usize] = self.pc;
        self.sp = if self.sp + 1 < STACK_CAPACITY as u8 { self.sp + 1 } else { STACK_CAPACITY as u8 - 1 };
        self.jump(addr)
    }

    /// `00EE`
    pub fn ret(&mut self)
        requires
            old(self).wf(),
        ensures
            final(self)@ == old(self)@.ret(),
            final(self).wf(),
    {
        self.sp = self.sp.saturating_sub(1);
        self.pc = self.stack[self.sp as usize];
    }

    fn skip_if(&mut self, cond: bool)
        requires
            old(self).wf(),
        ensures
            final(self)@ == old(self)@.skip_if(cond),
            final(self).wf(),
    {
        if cond {
            self.pc = self.pc.wrapping_add(2);
        }
    }

    /// `3xkk`
    pub fn skip_vx_eq_byte(&mut self, x: u8, byte: u8)
        requires
            old(self).wf(),
            x < 16,
        ensures
            final(self)@ == old(self)@.skip_if(old(self)@.v[x as int] == byte),
            final(self).wf(),
    {
        let c = self.get(x) == byte;
        self.skip_if(c);
    }

    /// `4xkk`
    pub fn skip_vx_neq_byte(&mut self, x: u8, byte: u8)
        requires
            old(self).wf(),
            x < 16,
        ensures
            final(self)@ == old(self)@.skip_if(old(self)@.v[x as int] != byte),
            final(self).wf(),
    {
        let c = self.get(x) != byte;
        self.skip_if(c);
    }

    /// `5xy0`
    pub fn skip_vx_eq_vy(&mut self, x: u8, y: u8)
        requires
            old(self).wf(),
            x < 16,
            y < 16,
        ensures
            final(self)@ == old(self)@.skip_if(old(self)@.v[x as int] == old(self)@.v[y as int]),
            final(self).wf(),
    {
        let c = self.get(x) == self.get(y);
        self.skip_if(c);
    }

    /// `9xy0`
    pub fn skip_vx_neq_vy(&mut self, x: u8, y: u8)
        requires
            old(self).wf(),
            x < 16,
            y < 16,
        ensures
            final(self)@ == old(self)@.skip_if(old(self)@.v[x as int] != old(self)@.v[y as int]),
            final(self).wf(),
    {
        let c = self.get(x) != self.get(y);
        self.skip_if(c);
    }

    /// `7xkk`
    pub fn add_vx_byte(&mut self, x: u8, byte: u8)
        requires
            old(self).wf(),
            x < 16,
        ensures
            final(self)@ == old(self)@.add_vx_byte(x, byte),
            final(self)@.v[x as int] == (old(self)@.v[x as int] + byte) % 256,
            x != 15 ==> final(self)@.v[15] == old(self)@.v[15],
            final(self).wf(),
    {
        self.set(x, self.get(x).wrapping_add(byte));
    }

    /// `8xy0`
    pub fn set_vx_vy(&mut self, x: u8, y: u8)
        requires
            old(self).wf(),
            x < 16,
            y < 16,
        ensures
            final(self)@ == old(self)@.set_reg(x as int, old(self)@.v[y as int]),
            final(self).wf(),
    {
        self.set(x, self.get(y));
    }

    /// `8xy4`
    pub fn add_vx_vy(&mut self, x: u8, y: u8)
        requires
            old(self).wf(),
            x < 16,
            y < 16,
        ensures
            final(self)@ == old(self)@.add_vx_vy(x, y),
            final(self).wf(),
    {
        let a = self.get(x);
        let b = self.get(y);
        let overflow = a as u16 + b as u16 > 255;
        self.set(x, a.wrapping_add(b));
        self.set(0xF, if overflow { 1 } else { 0 });
    }

    /// `8xy5`
    pub fn sub_vx_vy(&mut self, x: u8, y: u8)
        requires
            old(self).wf(),
            x < 16,
            y < 16,
        ensures
            final(self)@ == old(self)@.sub_vx_vy(x, y),
            final(self)@.v[15] == (if old(self)@.v[x as int] < old(self)@.v[y as int] { 0u8 } else { 1u8 }),
            x != 15 ==> final(self)@.v[x as int] == (old(self)@.v[x as int] - old(self)@.v[y as int]) % 256,
            final(self).wf(),
    {
        let a = self.get(x);
        let b = self.get(y);
        self.set(x, a.wrapping_sub(b));
        self.set(0xF, if a >= b { 1 } else { 0 });
    }

    /// `8xy7`
    pub fn sub_vy_vx(&mut self, y: u8, x: u8)
        requires
            old(self).wf(),
            x < 16,
            y < 16,
        ensures
            final(self)@ == old(self)@.sub_vy_vx(y, x),
            final(self).wf(),
    {
        let a = self.get(y);
        let b = self.get(x);
        self.set(x, a.wrapping_sub(b));
        self.set(0xF, if a >= b { 1 } else { 0 });
    }

    /// `8xy1`
    pub fn or(&mut self, x: u8, y: u8)
        requires
            old(self).wf(),
            x < 16,
            y < 16,
        ensures
            final(self)@ == old(self)@.set_reg(x as int, old(self)@.v[x as int] | old(self)@.v[y as int]),
            final(self).wf(),
    {
        self.set(x, self.get(x) | self.get(y));
    }

    /// `8xy2`
    pub fn and(&mut self, x: u8, y: u8)
        requires
            old(self).wf(),
            x < 16,
            y < 16,
        ensures
            final(self)@ == old(self)@.set_reg(x as int, old(self)@.v[x as int] & old(self)@.v[y as int]),
            final(self).wf(),
    {
        self.set(x, self.get(x) & self.get(y));
    }

    /// `8xy3`
    pub fn xor(&mut self, x: u8, y: u8)
        requires
            old(self).wf(),
            x < 16,
            y < 16,
        ensures
            final(self)@ == old(self)@.set_reg(x as int, old(self)@.v[x as int] ^ old(self)@.v[y as int]),
            final(self).wf(),
    {
        self.set(x, self.get(x) ^ self.get(y));
    }

    /// `8xy6`
    pub fn shift_right(&mut self, x: u8)
        requires
            old(self).wf(),
            x < 16,
        ensures
            final(self)@ == old(self)@.shift_right(x),
            final(self).wf(),
    {
        let a = self.get(x);
        self.set(x, a >> 1);
        self.set(0xF, a & 0x1);
    }

    /// `8xyE`
    pub fn shift_left(&mut self, x: u8)
        requires
            old(self).wf(),
            x < 16,
        ensures
            final(self)@ == old(self)@.shift_left(x),
            final(self).wf(),
    {
        let a = self.get(x);
        self.set(x, ((a as u16 * 2) % 256) as u8);
        self.set(0xF, a & 0x80);
    }

    /// `Cxkk`: Vx = a pseudo-random byte masked with `byte`.
    pub fn rand(&mut self, x: u8, byte: u8)
        requires
            old(self).wf(),
            x < 16,
        ensures
            final(self)@ == old(self)@.set_reg(x as int, random_byte(old(self)@.tick) & byte),
            final(self).wf(),
    {
        let num = (((self.tick as u32 * 40503 + 12345) / 128) % 256) as u8;
        self.set(x, num & byte);
    }

    /// `Fx1E`
    pub fn add_i_vx(&mut self, x: u8)
        requires
            old(self).wf(),
            x < 16,
        ensures
            final(self)@ == (CpuView { i: add16(old(self)@.i as int, old(self)@.v[x as int] as int), ..old(self)@ }),
            final(self).wf(),
    {
        self.i = self.i.wrapping_add(self.get(x) as u16);
    }

    /// `Fx29`: I = address of the font glyph for digit Vx.
    pub fn set_i_sprite(&mut self, x: u8)
        requires
            old(self).wf(),
            x < 16,
        ensures
            final(self)@ == (CpuView { i: (old(self)@.v[x as int] * 5) as u16, ..old(self)@ }),
            final(self).wf(),
    {
        self.i = self.get(x) as u16 * 5;
    }

    /// `Ex9E`
    pub fn skip_pressed(&mut self, x: u8)
        requires
            old(self).wf(),
            x < 16,
        ensures
            final(self)@ == old(self)@.skip_if(old(self)@.key_pressed(old(self)@.v[x as int])),
            final(self).wf(),
    {
        let btn = self.get(x);
        let c = self.is_btn_pressed(btn);
        self.skip_if(c);
    }

    /// `ExA1`
    pub fn skip_not_pressed(&mut self, x: u8)
        requires
            old(self).wf(),
            x < 16,
        ensures
            final(self)@ == old(self)@.skip_if(!old(self)@.key_pressed(old(self)@.v[x as int])),
            final(self).wf(),
    {
        let btn = self.get(x);
        let c = !self.is_btn_pressed(btn);
        self.skip_if(c);
    }

    /// `Fx0A`: stop stepping until a key press is stored into Vx.
    pub fn wait_for_keypress(&mut self, x: u8)
        requires
            old(self).wf(),
            x < 16,
        ensures
            final(self)@ == (CpuView { waiting: Some(x), ..old(self)@ }),
            final(self).wf(),
    {
        self.waiting_button_for = Some(x);
    }

    /// `Fx33`
    pub fn store_bcd(&mut self, x: u8)
        requires
            old(self).wf(),
            x < 16,
        ensures
            final(self)@ == old(self)@.store_bcd(x),
            final(self).wf(),
    {
        let vx = self.get(x);
        let i = self.i as usize;
        self.memory[i % MEMORY_CAPACITY] = vx / 100;
        self.memory[(i + 1) % MEMORY_CAPACITY] = (vx % 100) / 10;
        self.memory[(i + 2) % MEMORY_CAPACITY] = vx % 10;
    }
}

impl Cpu {
    /// `Fx55`: V0..=Vx to memory starting at I.
    pub fn store_through(&mut self, x: u8)
        requires
            old(self).wf(),
            x < 16,
        ensures
            final(self)@ == old(self)@.store_through(x),
            final(self).wf(),
    {
        let i = self.i as usize;
        let mut xx: u8 = 0;
        while xx <= x
            invariant
                xx <= x + 1,
                x < 16,
                i == old(self)@.i,
                self@ == (CpuView { memory: self@.memory, ..old(self)@ }),
                self@.memory.len() == MEMORY_CAPACITY,
                forall|a: int|
                    0 <= a < MEMORY_CAPACITY ==> self@.memory[a] == (if (a - i) % 4096 < xx as int {
                        old(self)@.v[(a - i) % 4096]
                    } else {
                        old(self)@.memory[a]
                    }),
            decreases x + 1 - xx,
        {
            let a = (i + xx as usize) % MEMORY_CAPACITY;
            assert(((a - i) % 4096) == xx as int);
            self.memory[a] = self.get(xx);
            xx += 1;
        }
        assert(self@.memory =~= old(self)@.store_through(x).memory);
    }

    /// `Fx65`: V0..=Vx from memory starting at I.
    pub fn read_through(&mut self, x: u8)
        requires
            old(self).wf(),
            x < 16,
        ensures
            final(self)@ == old(self)@.read_through(x),
            final(self).wf(),
    {
        let i = self.i as usize;
        let mut xx: u8 = 0;
        while xx <= x
            invariant
                xx <= x + 1,
                x < 16,
                i == old(self)@.i,
                self@ == (CpuView { v: self@.v, ..old(self)@ }),
                self@.v.len() == 16,
                forall|k: int|
                    0 <= k < 16 ==> self@.v[k] == (if k < xx as int {
                        old(self)@.memory[addr(i as int, k)]
                    } else {
                        old(self)@.v[k]
                    }),
            decreases x + 1 - xx,
        {
            let a = (i + xx as usize) % MEMORY_CAPACITY;
            self.set(xx, self.memory[a]);
            xx += 1;
        }
        assert(self@.v =~= old(self)@.read_through(x).v);
    }
}

impl Cpu {
    /// `Dxyn`
    pub fn draw(&mut self, x: u8, y: u8, n: u8)
        requires
            old(self).wf(),
            x < 16,
            y < 16,
            n < 16,
        ensures
            final(self)@ == old(self)@.draw(x, y, n),
            final(self).wf(),
    {
        let vx = self.get(x) as usize;
        let vy = self.get(y) as usize;
        let sw = DISPLAY_WIDTH as usize;
        let sh = DISPLAY_HEIGHT as usize;
        let ghost s0 = self@;
        let ghost gn = n as int;
        let mut overlaps = false;
        let mut row: usize = 0;
        while row < n as usize
            invariant
                row <= n < 16,
                x < 16,
                y < 16,
                gn == n,
                sw == 64,
                sh == 32,
                vx == s0.v[x as int],
                vy == s0.v[y as int],
                s0 == old(self)@,
                s0.wf(),
                self@ == (CpuView { display: self@.display, ..s0 }),
                self@.display.len() == DISPLAY_DATA_LEN,
                forall|k: int|
                    0 <= k < DISPLAY_DATA_LEN ==> #[trigger] self@.display[k] == (s0.display[k] != (
                    s0.sprite_hit(vx as int, vy as int, gn, k) && cell_row(vy as int, k) < row)),
                overlaps ==> exists|k: int|
                    0 <= k < DISPLAY_DATA_LEN && #[trigger] s0.sprite_hit(vx as int, vy as int, gn, k)
                        && s0.display[k],
                !overlaps ==> forall|k: int|
                    0 <= k < DISPLAY_DATA_LEN && #[trigger] s0.sprite_hit(vx as int, vy as int, gn, k)
                        && cell_row(vy as int, k) < row ==> !s0.display[k],
            decreases n - row,
        {
            let sprite = self.memory[(self.i as usize + row) % MEMORY_CAPACITY];
            let mut col: usize = 0;
            while col < 8
                invariant
                    row < n < 16,
                    col <= 8,
                    x < 16,
                    y < 16,
                    gn == n,
                    sw == 64,
                    sh == 32,
                    vx == s0.v[x as int],
                    vy == s0.v[y as int],
                    s0 == old(self)@,
                    s0.wf(),
                    sprite == s0.memory[addr(s0.i as int, row as int)],
                    self@ == (CpuView { display: self@.display, ..s0 }),
                    self@.display.len() == DISPLAY_DATA_LEN,
                    forall|k: int|
                        0 <= k < DISPLAY_DATA_LEN ==> #[trigger] self@.display[k] == (s0.display[k] != (
                        s0.sprite_hit(vx as int, vy as int, gn, k) && (cell_row(vy as int, k) < row || (
                        cell_row(vy as int, k) == row && cell_col(vx as int, k) < col)))),
                    overlaps ==> exists|k: int|
                        0 <= k < DISPLAY_DATA_LEN && #[trigger] s0.sprite_hit(vx as int, vy as int, gn, k)
                            && s0.display[k],
                    !overlaps ==> forall|k: int|
                        0 <= k < DISPLAY_DATA_LEN && #[trigger] s0.sprite_hit(vx as int, vy as int, gn, k)
                            && (cell_row(vy as int, k) < row || (cell_row(vy as int, k) == row
                            && cell_col(vx as int, k) < col)) ==> !s0.display[k],
                decreases 8 - col,
            {
                let cx = (vx + col) % sw;
                let cy = (vy + row) % sh;
                let idx = cy * sw + cx;
                proof {
                    assert forall|k: int| 0 <= k < DISPLAY_DATA_LEN implies ({
                        &&& 0 <= idx < DISPLAY_DATA_LEN
                        &&& cell_col(vx as int, idx as int) == col
                        &&& cell_row(vy as int, idx as int) == row
                        &&& (cell_col(vx as int, k) == col && cell_row(vy as int, k) == row ==> k == idx)
                    }) by {
                        lemma_cell(vx as int, vy as int, row as int, col as int, k);
                    }
                    lemma_cell(vx as int, vy as int, row as int, col as int, 0);
                }
                if (sprite >> (7 - col as u8)) & 1u8 == 1u8 {
                    assert(s0.sprite_hit(vx as int, vy as int, gn, idx as int));
                    if self.display[idx] {
                        self.display[idx] = false;
                        overlaps = true;
                    } else {
                        self.display[idx] = true;
                    }
                } else {
                    assert(!s0.sprite_hit(vx as int, vy as int, gn, idx as int));
                }
                col += 1;
            }
            row += 1;
        }
        self.set(0xF, if overlaps { 1 } else { 0 });
        self.display_changed = true;
        proof {
            let post = old(self)@.draw(x, y, n);
            assert(self@.display =~= post.display);
            assert forall|k: int| 0 <= k < DISPLAY_DATA_LEN && #[trigger] s0.sprite_hit(vx as int, vy as int, gn, k) implies cell_row(vy as int, k) < n as int by {}
        }
    }
}

impl Cpu {
    /// Executes one decoded instruction; the program counter advance is left
    /// to `step`.
    pub fn execute_instruction(&mut self, ins: Instruction)
        requires
            old(self).wf(),
            ins.wf(),
        ensures
            final(self)@ == old(self)@.exec(ins),
            final(self).wf(),
    {
        reveal(CpuView::exec);
        match ins {
            Instruction::Sys { nnn } => {},
            Instruction::Unknown { word } => {},
            Instruction::Clear => self.clear(),
            Instruction::Return => self.ret(),
            Instruction::Jump { nnn } => self.jump(nnn),
            Instruction::JumpV0 { nnn } => {
                let target = nnn + self.get(0) as u16;
                self.jump(target)
            },
            Instruction::Call { nnn } => self.call(nnn),
            Instruction::SkipEqByte { x, kk } => self.skip_vx_eq_byte(x, kk),
            Instruction::SkipNeqByte { x, kk } => self.skip_vx_neq_byte(x, kk),
            Instruction::SkipEqReg { x, y } => self.skip_vx_eq_vy(x, y),
            Instruction::SkipNeqReg { x, y } => self.skip_vx_neq_vy(x, y),
            Instruction::SetByte { x, kk } => {
                self.set(x, kk);
            },
            Instruction::AddByte { x, kk } => self.add_vx_byte(x, kk),
            Instruction::SetReg { x, y } => self.set_vx_vy(x, y),
            Instruction::Or { x, y } => self.or(x, y),
            Instruction::And { x, y } => self.and(x, y),
            Instruction::Xor { x, y } => self.xor(x, y),
            Instruction::AddReg { x, y } => self.add_vx_vy(x, y),
            Instruction::SubReg { x, y } => self.sub_vx_vy(x, y),
            Instruction::SubRev { x, y } => self.sub_vy_vx(y, x),
            Instruction::ShiftRight { x } => self.shift_right(x),
            Instruction::ShiftLeft { x } => self.shift_left(x),
            Instruction::Random { x, kk } => self.rand(x, kk),
            Instruction::Draw { x, y, n } => self.draw(x, y, n),
            Instruction::GetDelay { x } => {
                let dt = self.dt;
                self.set(x, dt);
            },
            Instruction::SetDelay { x } => self.dt = self.get(x),
            Instruction::SetSound { x } => self.st = self.get(x),
            Instruction::SetIndex { nnn } => self.i = nnn,
            Instruction::AddIndex { x } => self.add_i_vx(x),
            Instruction::FontSprite { x } => self.set_i_sprite(x),
            Instruction::SkipPressed { x } => self.skip_pressed(x),
            Instruction::SkipNotPressed { x } => self.skip_not_pressed(x),
            Instruction::WaitKey { x } => self.wait_for_keypress(x),
            Instruction::StoreBcd { x } => self.store_bcd(x),
            Instruction::StoreRegs { x } => self.store_through(x),
            Instruction::LoadRegs { x } => self.read_through(x),
        }
    }

    /// Decodes and executes one instruction word.
    pub fn execute(&mut self, ins: u16)
        requires
            old(self).wf(),
        ensures
            final(self)@ == old(self)@.exec(decode_spec(ins)),
            final(self).wf(),
    {
        let decoded = decode(ins);
        self.execute_instruction(decoded)
    }

    /// Runs one instruction, unless a key press is awaited.
    pub fn step(&mut self)
        requires
            old(self).wf(),
        ensures
            final(self)@ == old(self)@.step(),
            final(self).wf(),
    {
        if self.waiting_button_for.is_some() {
            return;
        }
        self.jump_next = true;
        self.tick = self.tick.wrapping_add(1);
        let pc = self.pc as usize;
        let hi = self.memory[pc % MEMORY_CAPACITY] as u16;
        let lo = self.memory[(pc + 1) % MEMORY_CAPACITY] as u16;
        let ins = hi * 256 + lo;
        assert(ins == self@.fetch());
        self.execute(ins);
        if self.jump_next {
            self.pc = self.pc.wrapping_add(2);
        }
    }
}

impl Cpu {
    /// Whether a program has been loaded.
    pub fn is_ready(&self) -> (r: bool)
        ensures
            r == self@.ready,
    {
        self.ready
    }

    /// The program counter.
    pub fn pc(&self) -> (r: u16)
        ensures
            r == self@.pc,
    {
        self.pc
    }

    /// The index register I.
    pub fn index(&self) -> (r: u16)
        ensures
            r == self@.i,
    {
        self.i
    }

    /// The delay timer.
    pub fn delay_timer(&self) -> (r: u8)
        ensures
            r == self@.dt,
    {
        self.dt
    }

    /// The stack slot the next call writes.
    pub fn stack_pointer(&self) -> (r: u8)
        ensures
            r == self@.sp,
    {
        self.sp
    }

    /// The register a pending key-wait will fill, if any.
    pub fn waiting_for_key(&self) -> (r: Option<u8>)
        ensures
            r == self@.waiting,
    {
        self.waiting_button_for
    }

    /// Display cell `idx` (row-major).
    pub fn pixel(&self, idx: usize) -> (r: bool)
        requires
            idx < DISPLAY_DATA_LEN,
        ensures
            r == self@.display[idx as int],
    {
        self.display[idx]
    }

    /// The byte at `address`.
    pub fn memory_at(&self, address: u16) -> (r: u8)
        requires
            address < MEMORY_CAPACITY,
        ensures
            r == self@.memory[address as int],
    {
        self.memory[address as usize]
    }
}

/// Drawing the same sprite twice at the same place leaves the display as it
/// was, and the second draw reports a collision exactly when the first one
/// turned a pixel on (that pixel is turned off again).
pub proof fn lemma_draw_twice(s: CpuView, x: u8, y: u8, n: u8)
    requires
        s.wf(),
        x < 15,
        y < 15,
        n < 16,
    ensures
        s.draw(x, y, n).draw(x, y, n).display == s.display,
        s.draw(x, y, n).draw(x, y, n).v[15] == (if exists|k: int|
            0 <= k < DISPLAY_DATA_LEN && #[trigger] s.sprite_hit(s.v[x as int] as int, s.v[y as int] as int, n as int, k)
                && !s.display[k] { 1u8 } else { 0u8 }),
{
    let vx = s.v[x as int] as int;
    let vy = s.v[y as int] as int;
    let s1 = s.draw(x, y, n);
    let s2 = s1.draw(x, y, n);
    assert(s1.v[x as int] == s.v[x as int] && s1.v[y as int] == s.v[y as int]);
    assert forall|k: int| 0 <= k < DISPLAY_DATA_LEN implies s1.sprite_hit(vx, vy, n as int, k) == s.sprite_hit(
        vx,
        vy,
        n as int,
        k,
    ) by {}
    assert(s2.display =~= s.display);
    if exists|k: int| 0 <= k < DISPLAY_DATA_LEN && #[trigger] s.sprite_hit(vx, vy, n as int, k) && !s.display[k] {
        let k = choose|k: int| 0 <= k < DISPLAY_DATA_LEN && #[trigger] s.sprite_hit(vx, vy, n as int, k) && !s.display[k];
        assert(s1.sprite_hit(vx, vy, n as int, k) && s1.display[k]);
    } else {
        assert forall|k: int| 0 <= k < DISPLAY_DATA_LEN && #[trigger] s1.sprite_hit(vx, vy, n as int, k) implies !s1.display[k] by {
            assert(s.sprite_hit(vx, vy, n as int, k));
        }
    }
}

/// Storing V0..=Vx and reading them back into a zeroed register bank gives
/// back the stored values.
pub proof fn lemma_store_read_round_trip(s: CpuView, x: u8)
    requires
        s.wf(),
        x < 16,
    ensures
        ({
            let stored = s.store_through(x);
            let zeroed = CpuView { v: Seq::new(16, |k: int| 0u8), ..stored };
            let back = zeroed.read_through(x);
            forall|k: int| 0 <= k <= x ==> back.v[k] == s.v[k]
        }),
{
    let stored = s.store_through(x);
    let i = s.i as int;
    assert forall|k: int| 0 <= k <= x implies stored.memory[addr(i, k)] == s.v[k] by {
        let a = addr(i, k);
        assert((a - i) % 4096 == k) by (nonlinear_arith)
            requires
                a == (i + k) % 4096,
                0 <= k < 16,
                0 <= i,
        ;
    }
}

/// The state after `n` steps.
pub open spec fn steps(s: CpuView, n: nat) -> CpuView
    decreases n,
{
    if n == 0 {
        s
    } else {
        steps(s, (n - 1) as nat).step()
    }
}

/// While a key press is awaited, any number of steps changes nothing; the
/// press then stores the key into the waiting register and ends the wait.
pub proof fn lemma_key_wait(s: CpuView, n: nat, k: u8)
    requires
        s.wf(),
        s.waiting is Some,
        k < 16,
    ensures
        steps(s, n) == s,
        steps(s, n).pressed(k).waiting is None,
        steps(s, n).pressed(k).v[s.waiting->0 as int] == k,
        steps(s, n).pressed(k).pc == s.pc,
    decreases n,
{
    if n > 0 {
        lemma_key_wait(s, (n - 1) as nat, k);
    }
}

/// Stepping onto a key-wait instruction `Fx0A` moves past it and starts
/// waiting for a key to store into Vx.
pub proof fn lemma_wait_key_step(s: CpuView, x: u8)
    requires
        s.wf(),
        s.waiting is None,
        x < 16,
        s.fetch() == 0xF00A + 0x100 * (x as int),
    ensures
        s.step().waiting == Some(x),
        s.step().pc == add16(s.pc as int, 2),
        s.step().v == s.v,
        s.step().memory == s.memory,
{
    reveal(CpuView::exec);
    let w = s.fetch();
    assert(decode_spec(w) == Instruction::WaitKey { x });
}

/// Key codes above 0xF are clamped to 0xF.
fn clamp_key(k: u8) -> (r: u8)
    ensures
        r as int == key_index(k),
{
    if k < 16 { k } else { 15 }
}

} // verus!
