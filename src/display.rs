//! A chain of MAX7219-driven 8x8 matrices seen as one canvas of
//! `8 * number_of_matrices` by 8 pixels.
//!
//! The driver decides what the chain is sent; each operation yields the
//! ordered device commands, which the caller hands to the hardware in order,
//! stopping at the first failure.
use vstd::prelude::*;

use crate::error::Error;
use crate::glyphs::bit_set;

verus! {

/// Largest number of matrices a chain may hold.
pub const MAX_MATRICES: u32 = 16;

/// One operation on the matrix chain.
#[derive(Debug, Clone, Copy)]
pub enum Command {
    /// Leave shutdown mode on every matrix.
    PowerOn,
    /// Turn off digit decoding on one matrix, so rows are shown as raw bits.
    NoDecode { module: usize },
    /// Set the intensity (0x0 to 0xF) of one matrix.
    Intensity { module: usize, level: u8 },
    /// Blank one matrix.
    Clear { module: usize },
    /// Show eight rows on one matrix; bit `7 - c` of a row is column `c`.
    WriteRaw { module: usize, rows: [u8; 8] },
}

/// The commands that set decoding off on each of `n` matrices.
pub open spec fn no_decode_commands(n: nat) -> Seq<Command> {
    Seq::new(n, |i: int| Command::NoDecode { module: i as usize })
}

/// The commands that blank each of `n` matrices.
pub open spec fn clear_commands(n: nat) -> Seq<Command> {
    Seq::new(n, |i: int| Command::Clear { module: i as usize })
}

/// The commands that give each of `n` matrices intensity `level`.
pub open spec fn intensity_commands(n: nat, level: u8) -> Seq<Command> {
    Seq::new(n, |i: int| Command::Intensity { module: i as usize, level })
}

/// Everything a chain of `n` matrices is sent when it is brought up.
pub open spec fn startup_commands(n: nat, level: u8) -> Seq<Command> {
    seq![Command::PowerOn] + no_decode_commands(n) + clear_commands(n) + intensity_commands(n, level)
}

/// `row` holds, at bit `7 - c` for each column `c`, whether `pixel` is lit at
/// column `c` of matrix `module` in row `y`: some value that `pixel` may return
/// there is nonzero exactly when the bit is set.
pub open spec fn row_shows<F: Fn(usize, usize) -> u8>(pixel: F, module: int, y: int, row: u8) -> bool {
    forall|c: int| 0 <= c < 8 ==> #[trigger] column_shows(pixel, module, y, c, row)
}

pub open spec fn column_shows<F: Fn(usize, usize) -> u8>(pixel: F, module: int, y: int, c: int, row: u8) -> bool {
    exists|v: u8| #[trigger] pixel.ensures(((8 * module + c) as usize, y as usize), v) && (v > 0 <==> bit_set(row, 7 - c))
}

/// The command list `cmds` writes to every matrix, in chain order, the frame
/// that `pixel` describes.
pub open spec fn frames_show<F: Fn(usize, usize) -> u8>(pixel: F, n: nat, cmds: Seq<Command>) -> bool {
    &&& cmds.len() == n
    &&& forall|i: int| 0 <= i < n ==> match #[trigger] cmds[i] {
        Command::WriteRaw { module, rows } => module == i && forall|y: int|
            0 <= y < 8 ==> row_shows(pixel, i, y, #[trigger] rows[y]),
        _ => false,
    }
}

/// What each matrix shows after `c`; `panel[i]` holds the rows of matrix `i`.
pub open spec fn apply(panel: Seq<Seq<u8>>, c: Command) -> Seq<Seq<u8>> {
    match c {
        Command::Clear { module } => if module < panel.len() {
            panel.update(module as int, blank_rows())
        } else {
            panel
        },
        Command::WriteRaw { module, rows } => if module < panel.len() {
            panel.update(module as int, rows@)
        } else {
            panel
        },
        _ => panel,
    }
}

/// What each matrix shows after the commands in order.
pub open spec fn apply_all(panel: Seq<Seq<u8>>, cmds: Seq<Command>) -> Seq<Seq<u8>>
    decreases cmds.len(),
{
    if cmds.len() == 0 {
        panel
    } else {
        apply(apply_all(panel, cmds.drop_last()), cmds.last())
    }
}

pub open spec fn blank_rows() -> Seq<u8> {
    Seq::new(8, |y: int| 0u8)
}

pub open spec fn blank_panel(n: nat) -> Seq<Seq<u8>> {
    Seq::new(n, |i: int| blank_rows())
}

/// The command list `cmds` writes to every matrix, in chain order, the canvas
/// `image`: bit `7 - c` of row `y` of matrix `i` is set exactly when
/// `image(8 * i + c, y)` is nonzero.
pub open spec fn frames_match(n: nat, cmds: Seq<Command>, image: spec_fn(int, int) -> u8) -> bool {
    &&& cmds.len() == n
    &&& forall|i: int| 0 <= i < n ==> match #[trigger] cmds[i] {
        Command::WriteRaw { module, rows } => module == i && forall|y: int, c: int|
            0 <= y < 8 && 0 <= c < 8 ==> (#[trigger] bit_set(rows[y], 7 - c) <==> image(8 * i + c, y) != 0),
        _ => false,
    }
}

/// When `pixel` always returns what `image` gives, the frames it was drawn
/// into show `image` exactly.
pub proof fn lemma_frames_match<F: Fn(usize, usize) -> u8>(
    pixel: F,
    n: nat,
    cmds: Seq<Command>,
    image: spec_fn(int, int) -> u8,
)
    requires
        n <= 16,
        frames_show(pixel, n, cmds),
        forall|x: usize, y: usize, v: u8| x < 8 * n && y < 8 && #[trigger] pixel.ensures((x, y), v) ==> v == image(x as int, y as int),
    ensures
        frames_match(n, cmds, image),
{
    assert forall|i: int| 0 <= i < n implies match #[trigger] cmds[i] {
        Command::WriteRaw { module, rows } => module == i && forall|y: int, c: int|
            0 <= y < 8 && 0 <= c < 8 ==> (#[trigger] bit_set(rows[y], 7 - c) <==> image(8 * i + c, y) != 0),
        _ => false,
    } by {
        if let Command::WriteRaw { module, rows } = cmds[i] {
            assert forall|y: int, c: int| 0 <= y < 8 && 0 <= c < 8 implies (#[trigger] bit_set(rows[y], 7 - c)
                <==> image(8 * i + c, y) != 0) by {
                assert(row_shows(pixel, i, y, rows[y]));
                assert(column_shows(pixel, i, y, c, rows[y]));
                let v = choose|v: u8| #[trigger] pixel.ensures(((8 * i + c) as usize, y as usize), v) && (v > 0
                    <==> bit_set(rows[y], 7 - c));
                assert(v == image(8 * i + c, y));
            }
        }
    }
}

/// Setting bit `k` of `line` (when `on`) leaves every other bit as it was.
proof fn lemma_set_bit(line: u8, k: u8, j: u8, on: bool)
    requires
        k < 8,
        j < 8,
    ensures
        bit_set(if on { line | (1u8 << k) } else { line }, j as int) == (if j == k { on || bit_set(line, j as int) } else {
            bit_set(line, j as int)
        }),
{
    let set = line | (1u8 << k);
    assert(((set >> j) & 1u8 == 1u8) == (if j == k { true } else { (line >> j) & 1u8 == 1u8 })) by (bit_vector)
        requires
            k < 8,
            j < 8,
            set == line | (1u8 << k),
    ;
}

proof fn lemma_clear_prefix(panel: Seq<Seq<u8>>, n: nat, k: nat)
    requires
        panel.len() == n,
        k <= n <= usize::MAX,
    ensures
        apply_all(panel, clear_commands(n).take(k as int)) == Seq::new(
            n,
            |i: int| if i < k { blank_rows() } else { panel[i] },
        ),
    decreases k,
{
    let cmds = clear_commands(n).take(k as int);
    if k == 0 {
        assert(panel =~= Seq::new(n, |i: int| if i < k { blank_rows() } else { panel[i] }));
    } else {
        lemma_clear_prefix(panel, n, (k - 1) as nat);
        assert(cmds.drop_last() =~= clear_commands(n).take(k - 1));
        assert(cmds.last() == Command::Clear { module: (k - 1) as usize });
        assert(apply_all(panel, cmds) =~= Seq::new(n, |i: int| if i < k { blank_rows() } else { panel[i] }));
    }
}

/// Blanking a chain of `n` matrices leaves every matrix blank, whatever it
/// showed; blanking it again changes nothing.
pub proof fn lemma_clear_idempotent(panel: Seq<Seq<u8>>, number_of_matrices: usize)
    requires
        panel.len() == number_of_matrices,
    ensures
        apply_all(panel, clear_commands(number_of_matrices as nat)) == blank_panel(number_of_matrices as nat),
        apply_all(apply_all(panel, clear_commands(number_of_matrices as nat)), clear_commands(number_of_matrices as nat))
            == apply_all(panel, clear_commands(number_of_matrices as nat)),
{
    let n = number_of_matrices as nat;
    lemma_clear_prefix(panel, n, n);
    assert(clear_commands(n).take(n as int) =~= clear_commands(n));
    assert(apply_all(panel, clear_commands(n)) =~= blank_panel(n));
    lemma_clear_prefix(blank_panel(n), n, n);
    assert(apply_all(blank_panel(n), clear_commands(n)) =~= blank_panel(n));
}

proof fn lemma_apply_all_append(panel: Seq<Seq<u8>>, a: Seq<Command>, b: Seq<Command>)
    ensures
        apply_all(panel, a + b) == apply_all(apply_all(panel, a), b),
    decreases b.len(),
{
    if b.len() == 0 {
        assert(a + b =~= a);
    } else {
        lemma_apply_all_append(panel, a, b.drop_last());
        assert((a + b).drop_last() =~= a + b.drop_last());
    }
}

/// Commands that only configure the chain leave every image as it was.
proof fn lemma_settings_keep_panel(panel: Seq<Seq<u8>>, cmds: Seq<Command>)
    requires
        forall|k: int| 0 <= k < cmds.len() ==> !(#[trigger] cmds[k] is Clear) && !(cmds[k] is WriteRaw),
    ensures
        apply_all(panel, cmds) == panel,
    decreases cmds.len(),
{
    if cmds.len() > 0 {
        lemma_settings_keep_panel(panel, cmds.drop_last());
        assert(!(cmds[cmds.len() - 1] is Clear));
    }
}

/// Bringing a chain of `n` matrices up leaves every matrix blank, whatever it
/// showed before.
pub proof fn lemma_startup_blank(panel: Seq<Seq<u8>>, number_of_matrices: usize, level: u8)
    requires
        panel.len() == number_of_matrices,
    ensures
        apply_all(panel, startup_commands(number_of_matrices as nat, level)) == blank_panel(number_of_matrices as nat),
{
    let n = number_of_matrices as nat;
    let head = seq![Command::PowerOn] + no_decode_commands(n);
    lemma_settings_keep_panel(panel, head);
    lemma_apply_all_append(panel, head, clear_commands(n));
    lemma_clear_idempotent(panel, number_of_matrices);
    lemma_apply_all_append(panel, head + clear_commands(n), intensity_commands(n, level));
    lemma_settings_keep_panel(blank_panel(n), intensity_commands(n, level));
}

/// The rows that the `i`-th command of a drawing writes.
pub open spec fn written_rows(cmds: Seq<Command>, i: int) -> Seq<u8> {
    match cmds[i] {
        Command::WriteRaw { rows, .. } => rows@,
        _ => blank_rows(),
    }
}

proof fn lemma_writes_prefix(panel: Seq<Seq<u8>>, n: nat, cmds: Seq<Command>, k: nat)
    requires
        panel.len() == n,
        k <= n == cmds.len(),
        forall|i: int| 0 <= i < n ==> (#[trigger] cmds[i] matches Command::WriteRaw { module, .. } && module == i),
    ensures
        apply_all(panel, cmds.take(k as int)) == Seq::new(
            n,
            |i: int| if i < k { written_rows(cmds, i) } else { panel[i] },
        ),
    decreases k,
{
    if k == 0 {
        assert(panel =~= Seq::new(n, |i: int| if i < k { written_rows(cmds, i) } else { panel[i] }));
    } else {
        lemma_writes_prefix(panel, n, cmds, (k - 1) as nat);
        assert(cmds.take(k as int).drop_last() =~= cmds.take(k - 1));
        assert(cmds[k - 1] matches Command::WriteRaw { module, .. } && module == k - 1);
        assert(apply_all(panel, cmds.take(k as int)) =~= Seq::new(
            n,
            |i: int| if i < k { written_rows(cmds, i) } else { panel[i] },
        ));
    }
}

/// Drawing replaces what every matrix showed by its new frame: nothing of the
/// earlier image is kept.
pub proof fn lemma_draw_overwrites<F: Fn(usize, usize) -> u8>(
    pixel: F,
    panel: Seq<Seq<u8>>,
    n: nat,
    cmds: Seq<Command>,
)
    requires
        panel.len() == n,
        frames_show(pixel, n, cmds),
    ensures
        apply_all(panel, cmds) == Seq::new(n, |i: int| written_rows(cmds, i)),
{
    assert forall|i: int| 0 <= i < n implies (#[trigger] cmds[i] matches Command::WriteRaw { module, .. }
        && module == i) by {
        match cmds[i] {
            Command::WriteRaw { module, rows } => {},
            _ => {},
        }
    }
    lemma_writes_prefix(panel, n, cmds, n);
    assert(cmds.take(n as int) =~= cmds);
    assert(Seq::new(n, |i: int| if i < n { written_rows(cmds, i) } else { panel[i] }) =~= Seq::new(
        n,
        |i: int| written_rows(cmds, i),
    ));
}

pub struct LinearMatrixDisplay {
    number_of_matrices: usize,
}

impl LinearMatrixDisplay {
    pub closed spec fn matrices(&self) -> nat {
        self.number_of_matrices as nat
    }

    pub closed spec fn wf(&self) -> bool {
        1 <= self.number_of_matrices <= MAX_MATRICES
    }

    /// A chain in use holds between 1 and 16 matrices.
    pub proof fn lemma_size(&self)
        requires
            self.wf(),
        ensures
            1 <= self.matrices() <= MAX_MATRICES,
    {
    }

    /// Number of matrices in the chain.
    pub fn number_of_matrices(&self) -> (r: usize)
        ensures
            r == self.matrices(),
    {
        self.number_of_matrices
    }

    /// Sets up a chain of `number_of_matrices` matrices at intensity
    /// `brightness`. A chain of 0 or more than 16 matrices is refused before
    /// anything is sent. Otherwise the commands returned power the chain on,
    /// turn decoding off on every matrix, blank them and set the intensity.
    pub fn new(number_of_matrices: u32, brightness: u8) -> (r: Result<(LinearMatrixDisplay, Vec<Command>), Error>)
        ensures
            (r is Ok) <==> (1 <= number_of_matrices <= MAX_MATRICES),
            r matches Err(e) ==> e == (Error::Max7219NumberError { number: number_of_matrices }),
            r matches Ok((d, cmds)) ==> {
                &&& d.wf()
                &&& d.matrices() == number_of_matrices
                &&& cmds@ == startup_commands(d.matrices(), brightness)
            },
    {
        if number_of_matrices == 0 || number_of_matrices > MAX_MATRICES {
            return Err(Error::Max7219NumberError { number: number_of_matrices });
        }
        let display = LinearMatrixDisplay { number_of_matrices: number_of_matrices as usize };
        let mut cmds: Vec<Command> = Vec::new();
        cmds.push(Command::PowerOn);
        let n = display.number_of_matrices;
        let mut i: usize = 0;
        while i < n
            invariant
                i <= n,
                cmds@ == seq![Command::PowerOn] + no_decode_commands(i as nat),
            decreases n - i,
        {
            cmds.push(Command::NoDecode { module: i });
            i = i + 1;
            assert(cmds@ =~= seq![Command::PowerOn] + no_decode_commands(i as nat));
        }
        let mut clear = display.clear();
        cmds.append(&mut clear);
        let mut level = display.brightness(brightness);
        cmds.append(&mut level);
        assert(cmds@ =~= startup_commands(n as nat, brightness));
        Ok((display, cmds))
    }

    /// Computes one frame per matrix from `pixel`, which gives the intensity
    /// at column `x` (0 to `8 * n - 1`) and row `y` (0 to 7) of the canvas,
    /// and yields one raw write per matrix, in chain order. Bit `7 - c` of row
    /// `y` of matrix `i` is set exactly when `pixel(8 * i + c, y)` is nonzero.
    /// The whole image is rewritten: nothing of an earlier frame is kept.
    pub fn draw<F: Fn(usize, usize) -> u8>(&self, pixel: F) -> (r: Vec<Command>)
        requires
            self.wf(),
            forall|x: usize, y: usize| x < 8 * self.matrices() && y < 8 ==> #[trigger] pixel.requires((x, y)),
        ensures
            frames_show(pixel, self.matrices(), r@),
    {
        let n = self.number_of_matrices;
        let mut cmds: Vec<Command> = Vec::new();
        let mut i: usize = 0;
        while i < n
            invariant
                i <= n,
                n == self.matrices(),
                1 <= n <= 16,
                forall|x: usize, y: usize| x < 8 * n && y < 8 ==> #[trigger] pixel.requires((x, y)),
                cmds.len() == i,
                forall|j: int| 0 <= j < i ==> match #[trigger] cmds@[j] {
                    Command::WriteRaw { module, rows } => module == j && forall|y: int|
                        0 <= y < 8 ==> row_shows(pixel, j, y, #[trigger] rows[y]),
                    _ => false,
                },
            decreases n - i,
        {
            let mut rows: [u8; 8] = [0u8; 8];
            let mut y: usize = 0;
            while y < 8
                invariant
                    i < n,
                    n <= 16,
                    y <= 8,
                    forall|x: usize, y: usize| x < 8 * n && y < 8 ==> #[trigger] pixel.requires((x, y)),
                    forall|yy: int| 0 <= yy < y ==> row_shows(pixel, i as int, yy, #[trigger] rows[yy]),
                decreases 8 - y,
            {
                let line = self.row_of(&pixel, i, y);
                rows[y] = line;
                y = y + 1;
            }
            cmds.push(Command::WriteRaw { module: i, rows });
            i = i + 1;
        }
        assert(frames_show(pixel, n as nat, cmds@));
        cmds
    }

    /// Row `y` of matrix `module`, sampled from `pixel` column by column.
    fn row_of<F: Fn(usize, usize) -> u8>(&self, pixel: &F, module: usize, y: usize) -> (line: u8)
        requires
            module < 16,
            y < 8,
            forall|c: usize| c < 8 ==> #[trigger] pixel.requires(((8 * module + c) as usize, y)),
        ensures
            row_shows(*pixel, module as int, y as int, line),
    {
        let mut line: u8 = 0;
        let mut x: usize = 0;
        proof {
            assert forall|c: int| 0 <= c < 8 implies !#[trigger] bit_set(line, 7 - c) by {
                let k = (7 - c) as u8;
                assert((0u8 >> k) & 1u8 == 0u8) by (bit_vector);
            }
        }
        while x < 8
            invariant
                x <= 8,
                module < 16,
                y < 8,
                forall|c: usize| c < 8 ==> #[trigger] pixel.requires(((8 * module + c) as usize, y)),
                forall|c: int| 0 <= c < x ==> #[trigger] column_shows(*pixel, module as int, y as int, c, line),
                forall|c: int| x <= c < 8 ==> !#[trigger] bit_set(line, 7 - c),
            decreases 8 - x,
        {
            assert(pixel.requires(((8 * module + x) as usize, y)));
            let v = pixel(x + module * 8, y);
            let ghost old_line = line;
            if v > 0 {
                line = line | (1u8 << ((7 - x) as u8));
            }
            proof {
                assert forall|c: int| 0 <= c < 8 implies #[trigger] bit_set(line, 7 - c) == (if c == x { v > 0 } else {
                    bit_set(old_line, 7 - c)
                }) by {
                    lemma_set_bit(old_line, (7 - x) as u8, (7 - c) as u8, v > 0);
                }
                assert(pixel.ensures(((8 * module + x) as usize, y), v));
                assert(column_shows(*pixel, module as int, y as int, x as int, line));
                assert forall|c: int| 0 <= c < x + 1 implies #[trigger] column_shows(*pixel, module as int, y as int, c, line) by {
                    if c < x {
                        assert(column_shows(*pixel, module as int, y as int, c, old_line));
                    }
                }
            }
            x = x + 1;
        }
        line
    }

    /// Gives every matrix the intensity `intensity` (meant to be 0x0 to 0xF;
    /// larger values are passed on unchanged).
    pub fn brightness(&self, intensity: u8) -> (r: Vec<Command>)
        ensures
            r@ == intensity_commands(self.matrices(), intensity),
    {
        let mut cmds: Vec<Command> = Vec::new();
        let mut i: usize = 0;
        while i < self.number_of_matrices
            invariant
                i <= self.number_of_matrices,
                cmds@ == intensity_commands(i as nat, intensity),
            decreases self.number_of_matrices - i,
        {
            cmds.push(Command::Intensity { module: i, level: intensity });
            i = i + 1;
            assert(cmds@ =~= intensity_commands(i as nat, intensity));
        }
        cmds
    }

    /// Blanks every matrix.
    pub fn clear(&self) -> (r: Vec<Command>)
        ensures
            r@ == clear_commands(self.matrices()),
    {
        let mut cmds: Vec<Command> = Vec::new();
        let mut i: usize = 0;
        while i < self.number_of_matrices
            invariant
                i <= self.number_of_matrices,
                cmds@ == clear_commands(i as nat),
            decreases self.number_of_matrices - i,
        {
            cmds.push(Command::Clear { module: i });
            i = i + 1;
            assert(cmds@ =~= clear_commands(i as nat));
        }
        cmds
    }
}

} // verus!
