//! The display instructions: clear-screen and the XOR sprite
//! compositor with its collision flag, specified pixel by pixel.

use vstd::prelude::*;
use vstd::pervasive::VecAdditionalExecFns;
use crate::state::{Chip8State, Chip8Error, ChipContext, applies, pixel_index};
use crate::ops::flag;

verus! {

/// Whether column `c` (leftmost first) of the sprite row byte `b` is a
/// set bit.
pub open spec fn row_bit(b: u8, c: int) -> bool {
    (b >> ((7 - c) as u8)) & 1 == 1
}

/// Whether the partially drawn sprite toggles pixel `(px, py)`: all of
/// the first `rows` sprite rows count, plus the first `cols` columns
/// of row `rows` itself. The sprite's top-left corner is `(x0, y0)`,
/// its row bytes start at memory address `i`, and both axes wrap.
/// Each sprite cell lands on its own pixel: a sprite is at most 8
/// columns and 16 rows, less than one wrap on either axis.
pub open spec fn sprite_hits_partial(
    mem: Seq<u8>,
    i: int,
    x0: int,
    y0: int,
    rows: int,
    cols: int,
    px: int,
    py: int,
) -> bool {
    let c = (px - x0 + 64) % 64;
    let r = (py - y0 + 32) % 32;
    &&& c < 8
    &&& r < rows || (r == rows && c < cols)
    &&& row_bit(mem[i + r], c)
}

/// Whether the whole `n`-row sprite toggles pixel `(px, py)`.
pub open spec fn sprite_hits(
    mem: Seq<u8>,
    i: int,
    x0: int,
    y0: int,
    n: int,
    px: int,
    py: int,
) -> bool {
    sprite_hits_partial(mem, i, x0, y0, n, 0, px, py)
}

/// The framebuffer after XOR-compositing the partially drawn sprite:
/// every pixel the sprite hits is toggled, every other pixel is kept.
pub open spec fn draw_fb_partial(
    fb: Seq<bool>,
    mem: Seq<u8>,
    i: int,
    x0: int,
    y0: int,
    rows: int,
    cols: int,
) -> Seq<bool> {
    Seq::new(
        2048,
        |p: int| fb[p] ^ sprite_hits_partial(mem, i, x0, y0, rows, cols, p / 32, p % 32),
    )
}

/// The framebuffer after XOR-compositing the whole `n`-row sprite.
pub open spec fn draw_fb(fb: Seq<bool>, mem: Seq<u8>, i: int, x0: int, y0: int, n: int) -> Seq<
    bool,
> {
    draw_fb_partial(fb, mem, i, x0, y0, n, 0)
}

/// Whether the partially drawn sprite hits a pixel that is already set
/// in `fb`: the collision that raises `VF`.
pub open spec fn collides_partial(
    fb: Seq<bool>,
    mem: Seq<u8>,
    i: int,
    x0: int,
    y0: int,
    rows: int,
    cols: int,
) -> bool {
    exists|px: int, py: int|
        0 <= px < 64 && 0 <= py < 32 && fb[pixel_index(px, py)] && sprite_hits_partial(
            mem,
            i,
            x0,
            y0,
            rows,
            cols,
            px,
            py,
        )
}

/// Whether the whole `n`-row sprite overlaps a set pixel of `fb`.
pub open spec fn collides(fb: Seq<bool>, mem: Seq<u8>, i: int, x0: int, y0: int, n: int) -> bool {
    collides_partial(fb, mem, i, x0, y0, n, 0)
}

/// `00E0`: every pixel cleared.
pub open spec fn spec_clean_screen(s: Chip8State) -> Chip8State {
    Chip8State { fb: Seq::new(2048, |p: int| false), ..s }
}

/// `Dxyn`: XOR-composite the `n`-row sprite at memory `I` onto the
/// framebuffer at `(Vx mod 64, Vy mod 32)` with wraparound on both
/// axes, and set `VF` to 1 exactly when a set pixel is hit; fail when
/// a sprite row would be read past the end of memory.
pub open spec fn spec_draw(s: Chip8State, x: u8, y: u8, n: u8) -> Result<Chip8State, Chip8Error> {
    let x0 = (s.v[x as int] % 64) as int;
    let y0 = (s.v[y as int] % 32) as int;
    if n > 0 && s.i + n > 4096 {
        Err(Chip8Error::OutOfBoundsAccess)
    } else {
        Ok(
            Chip8State {
                fb: draw_fb(s.fb, s.mem, s.i as int, x0, y0, n as int),
                v: s.v.update(15, flag(collides(s.fb, s.mem, s.i as int, x0, y0, n as int))),
                ..s
            },
        )
    }
}

/// Wrapped column offsets invert: the pixel column a sprite column
/// lands on determines that sprite column, and likewise for rows.
proof fn lemma_pixel_inverse(x0: int, y0: int, c: int, r: int)
    requires
        0 <= x0 < 64,
        0 <= y0 < 32,
        0 <= c < 64,
        0 <= r < 32,
    ensures
        ((x0 + c) % 64 - x0 + 64) % 64 == c,
        ((y0 + r) % 32 - y0 + 32) % 32 == r,
{
}

/// Every pixel is reached from some wrapped column and row offset.
proof fn lemma_pixel_forward(x0: int, y0: int, px: int, py: int)
    requires
        0 <= x0 < 64,
        0 <= y0 < 32,
        0 <= px < 64,
        0 <= py < 32,
    ensures
        (x0 + ((px - x0 + 64) % 64)) % 64 == px,
        (y0 + ((py - y0 + 32) % 32)) % 32 == py,
{
}

/// `00E0`: clear the screen.
pub fn clean_screen(chip: &mut ChipContext)
    requires
        old(chip)@.wf(),
    ensures
        final(chip)@.wf(),
        final(chip)@ == spec_clean_screen(old(chip)@),
{
    let mut p: usize = 0;
    while p < 2048
        invariant
            old(chip)@.wf(),
            p <= 2048,
            chip.framebuffer@.len() == 2048,
            chip.memory@ == old(chip)@.mem,
            chip.v@ == old(chip)@.v,
            chip.dt == old(chip)@.dt,
            chip.st == old(chip)@.st,
            chip.pc == old(chip)@.pc,
            chip.sp == old(chip)@.sp,
            chip.i == old(chip)@.i,
            chip.stack@ == old(chip)@.stack,
            chip.keyboard@ == old(chip)@.keys,
            forall|j: int| 0 <= j < p ==> !chip.framebuffer@[j],
        decreases 2048 - p,
    {
        chip.framebuffer.set(p, false);
        p = p + 1;
    }
    proof {
        assert(chip@ =~~= spec_clean_screen(old(chip)@));
    }
}

/// `Dxyn`: draw the `n`-row sprite read from memory at `I` to the
/// screen position held in `Vx`, `Vy`, or report an out-of-bounds
/// sprite address with the machine unchanged.
pub fn draw(chip: &mut ChipContext, x: u8, y: u8, n: u8) -> (r: Result<(), Chip8Error>)
    requires
        old(chip)@.wf(),
        x < 16,
        y < 16,
        n < 16,
    ensures
        final(chip)@.wf(),
        applies(spec_draw(old(chip)@, x, y, n), old(chip)@, final(chip)@, r),
{
    if n > 0 && chip.i as usize + n as usize > 4096 {
        return Err(Chip8Error::OutOfBoundsAccess);
    }
    let x0 = (chip.v[x as usize] % 64) as usize;
    let y0 = (chip.v[y as usize] % 32) as usize;
    let ghost fb0 = old(chip)@.fb;
    let ghost mem = old(chip)@.mem;
    let ghost gi = old(chip)@.i as int;
    let ghost gx0 = x0 as int;
    let ghost gy0 = y0 as int;
    chip.v.set(15, 0);
    proof {
        assert forall|px: int, py: int| !sprite_hits_partial(mem, gi, gx0, gy0, 0, 0, px, py) by {}
        assert(chip.v@ =~= old(chip)@.v.update(
            15,
            flag(collides_partial(fb0, mem, gi, gx0, gy0, 0, 0)),
        ));
        assert(chip.framebuffer@ =~= draw_fb_partial(fb0, mem, gi, gx0, gy0, 0, 0));
    }
    let mut row: usize = 0;
    let mut y_coord: usize = y0;
    while row < n as usize
        invariant
            old(chip)@.wf(),
            x0 < 64,
            y0 < 32,
            gx0 == x0 as int,
            gy0 == y0 as int,
            fb0 == old(chip)@.fb,
            mem == old(chip)@.mem,
            gi == old(chip)@.i as int,
            n < 16,
            n > 0 ==> gi + n <= 4096,
            row <= n as usize,
            y_coord == (gy0 + row) % 32,
            chip.memory@ == old(chip)@.mem,
            chip.dt == old(chip)@.dt,
            chip.st == old(chip)@.st,
            chip.pc == old(chip)@.pc,
            chip.sp == old(chip)@.sp,
            chip.i == old(chip)@.i,
            chip.stack@ == old(chip)@.stack,
            chip.keyboard@ == old(chip)@.keys,
            chip.v@ == old(chip)@.v.update(
                15,
                flag(collides_partial(fb0, mem, gi, gx0, gy0, row as int, 0)),
            ),
            chip.framebuffer@ == draw_fb_partial(fb0, mem, gi, gx0, gy0, row as int, 0),
        decreases n - row,
    {
        let byte = chip.memory[chip.i as usize + row];
        let mut x_temp: usize = x0;
        let mut col: usize = 0;
        while col < 8
            invariant
                old(chip)@.wf(),
                x0 < 64,
                y0 < 32,
                gx0 == x0 as int,
                gy0 == y0 as int,
                fb0 == old(chip)@.fb,
                mem == old(chip)@.mem,
                gi == old(chip)@.i as int,
                n < 16,
                n > 0 ==> gi + n <= 4096,
                row < n as usize,
                col <= 8,
                byte == mem[gi + row],
                x_temp == (gx0 + col) % 64,
                y_coord == (gy0 + row) % 32,
                chip.memory@ == old(chip)@.mem,
                chip.dt == old(chip)@.dt,
                chip.st == old(chip)@.st,
                chip.pc == old(chip)@.pc,
                chip.sp == old(chip)@.sp,
                chip.i == old(chip)@.i,
                chip.stack@ == old(chip)@.stack,
                chip.keyboard@ == old(chip)@.keys,
                chip.v@ == old(chip)@.v.update(
                    15,
                    flag(collides_partial(fb0, mem, gi, gx0, gy0, row as int, col as int)),
                ),
                chip.framebuffer@ == draw_fb_partial(
                    fb0,
                    mem,
                    gi,
                    gx0,
                    gy0,
                    row as int,
                    col as int,
                ),
            decreases 8 - col,
        {
            let ghost c = col as int;
            let ghost r = row as int;
            let ghost px = x_temp as int;
            let ghost py = y_coord as int;
            let ghost p = px * 32 + py;
            let shift = (7 - col) as u8;
            let swap_pixel: bool = (byte >> shift) & 1 != 0;
            let pix = x_temp * 32 + y_coord;
            proof {
                lemma_pixel_inverse(gx0, gy0, c, r);
                assert(p / 32 == px && p % 32 == py) by (nonlinear_arith)
                    requires
                        p == px * 32 + py,
                        0 <= py < 32,
                        0 <= px,
                ;
                // this cell has not been touched yet, so the live pixel
                // still holds its pre-draw value
                assert(!sprite_hits_partial(mem, gi, gx0, gy0, r, c, px, py));
                assert(chip.framebuffer@[p] == fb0[p]);
                assert(((byte >> shift) & 1 != 0) == ((byte >> shift) & 1 == 1)) by (bit_vector);
                assert(swap_pixel == row_bit(mem[gi + r], c));
            }
            let cur = chip.framebuffer[pix];
            if cur && swap_pixel {
                chip.v.set(15, 1);
            }
            chip.framebuffer.set(pix, cur ^ swap_pixel);
            proof {
                let hit_now = fb0[p] && row_bit(mem[gi + r], c);
                // the collision seen so far grows by exactly this cell
                assert(collides_partial(fb0, mem, gi, gx0, gy0, r, c + 1) == (collides_partial(
                    fb0,
                    mem,
                    gi,
                    gx0,
                    gy0,
                    r,
                    c,
                ) || hit_now)) by {
                    if collides_partial(fb0, mem, gi, gx0, gy0, r, c) {
                        let (wx, wy) = choose|wx: int, wy: int|
                            0 <= wx < 64 && 0 <= wy < 32 && fb0[pixel_index(wx, wy)]
                                && sprite_hits_partial(mem, gi, gx0, gy0, r, c, wx, wy);
                        assert(sprite_hits_partial(mem, gi, gx0, gy0, r, c + 1, wx, wy));
                        assert(collides_partial(fb0, mem, gi, gx0, gy0, r, c + 1));
                    }
                    if hit_now {
                        assert(sprite_hits_partial(mem, gi, gx0, gy0, r, c + 1, px, py));
                        assert(fb0[pixel_index(px, py)]);
                        assert(collides_partial(fb0, mem, gi, gx0, gy0, r, c + 1));
                    }
                    if collides_partial(fb0, mem, gi, gx0, gy0, r, c + 1) {
                        let (wx, wy) = choose|wx: int, wy: int|
                            0 <= wx < 64 && 0 <= wy < 32 && fb0[pixel_index(wx, wy)]
                                && sprite_hits_partial(mem, gi, gx0, gy0, r, c + 1, wx, wy);
                        let wc = (wx - gx0 + 64) % 64;
                        let wr = (wy - gy0 + 32) % 32;
                        if wr < r || (wr == r && wc < c) {
                            assert(sprite_hits_partial(mem, gi, gx0, gy0, r, c, wx, wy));
                            assert(collides_partial(fb0, mem, gi, gx0, gy0, r, c));
                        } else {
                            lemma_pixel_forward(gx0, gy0, wx, wy);
                            assert(wr == r && wc == c);
                            assert(wx == px && wy == py);
                            assert(hit_now);
                        }
                    }
                }
                // the register file: only the flag slot may change
                assert(chip.v@ =~= old(chip)@.v.update(
                    15,
                    flag(collides_partial(fb0, mem, gi, gx0, gy0, r, c + 1)),
                ));
                // the framebuffer: exactly this cell toggles
                assert(chip.framebuffer@ =~= draw_fb_partial(fb0, mem, gi, gx0, gy0, r, c + 1))
                    by {
                    assert forall|q: int| 0 <= q < 2048 implies chip.framebuffer@[q]
                        == draw_fb_partial(fb0, mem, gi, gx0, gy0, r, c + 1)[q] by {
                        let qx = q / 32;
                        let qy = q % 32;
                        assert(0 <= qx < 64 && 0 <= qy < 32 && q == qx * 32 + qy)
                            by (nonlinear_arith)
                            requires
                                0 <= q < 2048,
                                qx == q / 32,
                                qy == q % 32,
                        ;
                        lemma_pixel_forward(gx0, gy0, qx, qy);
                        let qc = (qx - gx0 + 64) % 64;
                        let qr = (qy - gy0 + 32) % 32;
                        if q == p {
                            assert(qx == px && qy == py) by (nonlinear_arith)
                                requires
                                    q == p,
                                    p == px * 32 + py,
                                    q == qx * 32 + qy,
                                    0 <= py < 32,
                                    0 <= qy < 32,
                            ;
                        } else {
                            assert(!(qx == px && qy == py));
                            assert(sprite_hits_partial(mem, gi, gx0, gy0, r, c + 1, qx, qy)
                                == sprite_hits_partial(mem, gi, gx0, gy0, r, c, qx, qy)) by {
                                if qr == r && qc == c {
                                    assert(qx == (gx0 + c) % 64 && qy == (gy0 + r) % 32);
                                    assert(false);
                                }
                            }
                        }
                    }
                }
            }
            x_temp = (x_temp + 1) % 64;
            col = col + 1;
        }
        proof {
            // a finished row counts the same cells as the start of the
            // next row
            assert forall|qx: int, qy: int|
                sprite_hits_partial(mem, gi, gx0, gy0, row as int, 8, qx, qy)
                    == sprite_hits_partial(mem, gi, gx0, gy0, row as int + 1, 0, qx, qy) by {}
            assert(chip.framebuffer@ =~= draw_fb_partial(
                fb0,
                mem,
                gi,
                gx0,
                gy0,
                row as int + 1,
                0,
            ));
            assert(collides_partial(fb0, mem, gi, gx0, gy0, row as int, 8) == collides_partial(
                fb0,
                mem,
                gi,
                gx0,
                gy0,
                row as int + 1,
                0,
            )) by {
                if collides_partial(fb0, mem, gi, gx0, gy0, row as int, 8) {
                    let (wx, wy) = choose|wx: int, wy: int|
                        0 <= wx < 64 && 0 <= wy < 32 && fb0[pixel_index(wx, wy)]
                            && sprite_hits_partial(mem, gi, gx0, gy0, row as int, 8, wx, wy);
                    assert(sprite_hits_partial(mem, gi, gx0, gy0, row as int + 1, 0, wx, wy));
                    assert(collides_partial(fb0, mem, gi, gx0, gy0, row as int + 1, 0));
                }
                if collides_partial(fb0, mem, gi, gx0, gy0, row as int + 1, 0) {
                    let (wx, wy) = choose|wx: int, wy: int|
                        0 <= wx < 64 && 0 <= wy < 32 && fb0[pixel_index(wx, wy)]
                            && sprite_hits_partial(mem, gi, gx0, gy0, row as int + 1, 0, wx, wy);
                    assert(sprite_hits_partial(mem, gi, gx0, gy0, row as int, 8, wx, wy));
                    assert(collides_partial(fb0, mem, gi, gx0, gy0, row as int, 8));
                }
            }
            assert(chip.v@ =~= old(chip)@.v.update(
                15,
                flag(collides_partial(fb0, mem, gi, gx0, gy0, row as int + 1, 0)),
            ));
        }
        y_coord = (y_coord + 1) % 32;
        row = row + 1;
    }
    proof {
        assert(chip@ =~~= spec_draw(old(chip)@, x, y, n)->Ok_0);
    }
    Ok(())
}

/// Drawing the same sprite twice at the same coordinates restores the
/// framebuffer exactly: XOR compositing is its own inverse. The flag
/// register reports the overlap of the second draw, so the registers
/// other than `VF` — the flag's own target, excluded from the
/// coordinate registers here — and all other state return to their
/// prior values.
pub proof fn lemma_draw_twice(s: Chip8State, x: u8, y: u8, n: u8)
    requires
        s.wf(),
        x < 16,
        y < 16,
        x != 15,
        y != 15,
        n < 16,
        spec_draw(s, x, y, n) is Ok,
    ensures
        ({
            let s1 = spec_draw(s, x, y, n)->Ok_0;
            let x0 = (s.v[x as int] % 64) as int;
            let y0 = (s.v[y as int] % 32) as int;
            &&& spec_draw(s1, x, y, n) matches Ok(s2)
            &&& spec_draw(s1, x, y, n)->Ok_0.fb == s.fb
            &&& spec_draw(s1, x, y, n)->Ok_0 == (Chip8State {
                v: s.v.update(15, flag(collides(s1.fb, s.mem, s.i as int, x0, y0, n as int))),
                ..s
            })
        }),
{
    let s1 = spec_draw(s, x, y, n)->Ok_0;
    let x0 = (s.v[x as int] % 64) as int;
    let y0 = (s.v[y as int] % 32) as int;
    assert(s1.v[x as int] == s.v[x as int] && s1.v[y as int] == s.v[y as int]);
    let s2 = spec_draw(s1, x, y, n)->Ok_0;
    assert(s2.fb =~= s.fb);
    assert(s2.v =~= s.v.update(15, flag(collides(s1.fb, s.mem, s.i as int, x0, y0, n as int))));
    assert(s2 =~~= (Chip8State {
        v: s.v.update(15, flag(collides(s1.fb, s.mem, s.i as int, x0, y0, n as int))),
        ..s
    }));
}

} // verus!
