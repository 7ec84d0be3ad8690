//! The plasma field and its renderer.
//!
//! A pixel's colour depends on its column through six waves and on its row
//! through six more, so the renderer evaluates each wave once for every
//! column and once for every row of the part it draws, and mixes the stored
//! values pixel by pixel.
use crate::color::PixelRgb;
use crate::flt::{Flt, FULL_TURN};
use crate::mixer::{
    waves_across, waves_down, IntermediateCalculator, Mixer, PlasmaLineCalc,
    PlasmaLineCalcProducer, PlasmaMixer, BANK_SIZE, LANES, WAVES,
};
use crate::phase_amp::{
    flat_of, imported, points_of, PhaseAmp, PhaseAmpCfg, PhaseAmpConfig, PhaseAmpDataExp,
    PhaseAmpPoint,
    PhaseAmpsSelect, SeedDraws, TickDraws,
};
use crate::pixel_buffer::PixelBuffer;
use vstd::arithmetic::div_mod::{lemma_fundamental_div_mod, lemma_fundamental_div_mod_converse};
use vstd::prelude::*;

verus! {

/// The angle between two neighbouring columns (or rows) of a field that is
/// `dimension` pixels wide (or high): a full turn over the dimension.
pub open spec fn axis_step(dimension: u32) -> Flt {
    Flt { bits: FULL_TURN }.over_spec(Flt::from_u32_spec(dimension))
}

/// The angle of column (or row) `coord`.
pub open spec fn axis_angle(coord: int, dimension: u32) -> Flt {
    Flt::from_u32_spec(coord as u32).times_spec(axis_step(dimension))
}

/// The values of the six waves of one axis at an angle.
pub open spec fn wave_values(waves: Seq<PlasmaLineCalc>, angle: Flt) -> Seq<Flt> {
    Seq::new(waves.len(), |k: int| waves[k].value_at(angle))
}

/// The wave values of `count` columns (or rows) from `start` on, six in a row
/// for each.
pub open spec fn axis_table(waves: Seq<PlasmaLineCalc>, start: int, count: int, dimension: u32) -> Seq<
    Flt,
> {
    Seq::new(
        (count * 6) as nat,
        |j: int| waves[j % 6].value_at(axis_angle(start + j / 6, dimension)),
    )
}

/// The colour of the pixel in column `col` and row `row` of a field of
/// `pw` by `ph` pixels that the oscillators `points` drive.
pub open spec fn pixel_colour<M: Mixer>(
    points: Seq<PhaseAmpPoint>,
    pw: u32,
    ph: u32,
    col: int,
    row: int,
) -> PixelRgb {
    M::mixed(
        wave_values(waves_across(points), axis_angle(col, pw)),
        wave_values(waves_down(points), axis_angle(row, ph)),
    )
}

/// How many columns (or rows) of a part that starts at `start` and asks for
/// `extent` lie inside a field of the given dimension.
pub open spec fn visible_extent(dimension: u32, start: usize, extent: usize) -> int {
    if start >= dimension {
        0
    } else if extent <= dimension - start {
        extent as int
    } else {
        dimension - start
    }
}

/// The byte at index `idx` of a buffer after the part of `dx` by `dy` pixels
/// at (`x`, `y`) was drawn into it. Row `r` of the part starts at index
/// `r * pitch`; within a row, pixel `c` takes the bytes from `c` times the
/// pixel size on. Bytes of a row beyond its `dx` pixels, beyond `pitch`, and
/// bytes behind the last row keep what they held.
pub open spec fn rendered_byte<B: PixelBuffer, M: Mixer>(
    before: Seq<u8>,
    points: Seq<PhaseAmpPoint>,
    pitch: int,
    pw: u32,
    ph: u32,
    x: int,
    y: int,
    dx: int,
    dy: int,
    idx: int,
) -> u8 {
    let row = idx / pitch;
    let offset = idx % pitch;
    let size = B::PIXEL_BYTES as int;
    if row < dy && offset < dx * size {
        B::encoded(pixel_colour::<M>(points, pw, ph, x + offset / size, y + row))[offset % size]
    } else {
        before[idx]
    }
}

/// The buffer after the part of `dx` by `dy` pixels at (`x`, `y`) was drawn
/// into it.
pub open spec fn rendered<B: PixelBuffer, M: Mixer>(
    before: Seq<u8>,
    points: Seq<PhaseAmpPoint>,
    pitch: int,
    pw: u32,
    ph: u32,
    x: int,
    y: int,
    dx: int,
    dy: int,
) -> Seq<u8> {
    Seq::new(
        before.len(),
        |idx: int| rendered_byte::<B, M>(before, points, pitch, pw, ph, x, y, dx, dy, idx),
    )
}

/// What a call of `render_part` needs of its arguments when the part reaches
/// into the field: a bank of at least 24 oscillators, a pitch that is not
/// zero, and a buffer that holds `pitch` bytes for each row drawn.
pub open spec fn can_render(
    buffer_len: int,
    pitch: usize,
    pw: u32,
    ph: u32,
    bank_len: int,
    x: usize,
    y: usize,
    w: usize,
    h: usize,
) -> bool {
    x < pw && y < ph ==> {
        &&& bank_len >= BANK_SIZE
        &&& pitch > 0
        &&& pitch * visible_extent(ph, y, h) <= buffer_len
    }
}

/// The buffer after `render_part`: untouched where the part lies outside the
/// field, drawn otherwise.
pub open spec fn render_result<B: PixelBuffer, M: Mixer>(
    before: Seq<u8>,
    points: Seq<PhaseAmpPoint>,
    pitch: usize,
    pw: u32,
    ph: u32,
    x: usize,
    y: usize,
    w: usize,
    h: usize,
) -> Seq<u8> {
    if x >= pw || y >= ph {
        before
    } else {
        rendered::<B, M>(
            before,
            points,
            pitch as int,
            pw,
            ph,
            x as int,
            y as int,
            visible_extent(pw, x, w),
            visible_extent(ph, y, h),
        )
    }
}

/// The workspace after `render_part`: as it was where the part lies outside
/// the field; otherwise the wave values of the columns drawn, then those of
/// the rows drawn.
pub open spec fn workspace_result(
    before: Seq<Flt>,
    points: Seq<PhaseAmpPoint>,
    pw: u32,
    ph: u32,
    x: usize,
    y: usize,
    w: usize,
    h: usize,
) -> Seq<Flt> {
    if x >= pw || y >= ph {
        before
    } else {
        axis_table(waves_across(points), x as int, visible_extent(pw, x, w), pw) + axis_table(
            waves_down(points),
            y as int,
            visible_extent(ph, y, h),
            ph,
        )
    }
}

/// Appends to `out` the values of the six waves for `count` columns (or
/// rows) from `start` on.
fn prepare_composition_line(
    waves: &Vec<PlasmaLineCalc>,
    start: usize,
    count: usize,
    dimension: u32,
    out: &mut Vec<Flt>,
)
    requires
        waves@.len() == WAVES,
        start + count <= dimension,
    ensures
        final(out)@ == old(out)@ + axis_table(waves@, start as int, count as int, dimension),
{
    let ghost table = axis_table(waves@, start as int, count as int, dimension);
    let ghost base = out@.len();
    let step = Flt { bits: FULL_TURN }.over(Flt::from_u32(dimension));
    let mut i: usize = 0;
    while i < count
        invariant
            i <= count,
            waves@.len() == WAVES,
            start + count <= dimension,
            step == axis_step(dimension),
            base == old(out)@.len(),
            table == axis_table(waves@, start as int, count as int, dimension),
            out@ == old(out)@ + table.subrange(0, i * 6),
        decreases count - i,
    {
        let angle = Flt::from_u32((start + i) as u32).times(step);
        let mut k: usize = 0;
        while k < 6
            invariant
                k <= 6,
                i < count,
                waves@.len() == WAVES,
                angle == axis_angle(start + i, dimension),
                base == old(out)@.len(),
                table == axis_table(waves@, start as int, count as int, dimension),
                out@ == old(out)@ + table.subrange(0, i * 6 + k),
            decreases 6 - k,
        {
            let value = waves[k].calculate(angle);
            out.push(value);
            k = k + 1;
            assert(out@ =~= old(out)@ + table.subrange(0, i * 6 + k));
        }
        i = i + 1;
    }
    assert(table.subrange(0, count * 6) =~= table);
}

/// The angles of `valid` neighbouring columns (or rows) from `first` on, one
/// to a lane; lanes beyond `valid` hold zero.
fn lane_angles(first: usize, valid: usize, step: Flt, dimension: u32) -> (angles: [Flt; 8])
    requires
        valid <= LANES,
        first + valid <= dimension,
        step == axis_step(dimension),
    ensures
        forall|l: int| 0 <= l < valid ==> #[trigger] angles@[l] == axis_angle(first + l, dimension),
        forall|l: int| valid <= l < LANES ==> #[trigger] angles@[l] == Flt::zero(),
{
    let mut angles: [Flt; 8] = [Flt { bits: 0 };8];
    let mut l: usize = 0;
    while l < valid
        invariant
            l <= valid <= LANES,
            first + valid <= dimension,
            step == axis_step(dimension),
            forall|i: int| 0 <= i < l ==> #[trigger] angles@[i] == axis_angle(first + i, dimension),
            forall|i: int| l <= i < LANES ==> #[trigger] angles@[i] == Flt::zero(),
        decreases valid - l,
    {
        angles[l] = Flt::from_u32((first + l) as u32).times(step);
        l = l + 1;
    }
    angles
}

/// Appends to `out` the values of the six waves for `count` columns (or
/// rows) from `start` on, as `prepare_composition_line` does, but evaluates
/// each wave for eight neighbours at a time. The last batch may hold fewer
/// than eight; what its spare lanes compute is dropped.
fn prepare_composition_lanes(
    waves: &Vec<PlasmaLineCalc>,
    start: usize,
    count: usize,
    dimension: u32,
    out: &mut Vec<Flt>,
)
    requires
        waves@.len() == WAVES,
        start + count <= dimension,
    ensures
        final(out)@ == old(out)@ + axis_table(waves@, start as int, count as int, dimension),
{
    let ghost table = axis_table(waves@, start as int, count as int, dimension);
    let step = Flt { bits: FULL_TURN }.over(Flt::from_u32(dimension));
    let mut done: usize = 0;
    while done < count
        invariant
            done <= count,
            waves@.len() == WAVES,
            start + count <= dimension,
            step == axis_step(dimension),
            table == axis_table(waves@, start as int, count as int, dimension),
            out@ == old(out)@ + table.subrange(0, done * 6),
        decreases count - done,
    {
        let valid: usize = if count - done < 8 {
            count - done
        } else {
            8
        };
        let angles = lane_angles(start + done, valid, step, dimension);
        let mut values: Vec<[Flt; 8]> = Vec::new();
        let mut k: usize = 0;
        while k < 6
            invariant
                k <= 6,
                waves@.len() == WAVES,
                values@.len() == k,
                forall|w: int, l: int|
                    0 <= w < k && 0 <= l < LANES ==> #[trigger] values@[w]@[l] == waves@[w].value_at(
                        angles@[l],
                    ),
            decreases 6 - k,
        {
            let lanes = waves[k].calculate_lanes(&angles);
            values.push(lanes);
            k = k + 1;
        }
        let mut l: usize = 0;
        while l < valid
            invariant
                l <= valid <= LANES,
                done + valid <= count,
                waves@.len() == WAVES,
                values@.len() == WAVES,
                forall|w: int, i: int|
                    0 <= w < WAVES && 0 <= i < LANES ==> #[trigger] values@[w]@[i] == waves@[w].value_at(
                        angles@[i],
                    ),
                forall|i: int|
                    0 <= i < valid ==> #[trigger] angles@[i] == axis_angle(start + done + i, dimension),
                table == axis_table(waves@, start as int, count as int, dimension),
                out@ == old(out)@ + table.subrange(0, (done + l) * 6),
            decreases valid - l,
        {
            let mut w: usize = 0;
            while w < 6
                invariant
                    w <= 6,
                    l < valid <= LANES,
                    done + valid <= count,
                    waves@.len() == WAVES,
                    values@.len() == WAVES,
                    forall|u: int, i: int|
                        0 <= u < WAVES && 0 <= i < LANES ==> #[trigger] values@[u]@[i] == waves@[u].value_at(
                            angles@[i],
                        ),
                    angles@[l as int] == axis_angle(start + done + l, dimension),
                    table == axis_table(waves@, start as int, count as int, dimension),
                    out@ == old(out)@ + table.subrange(0, (done + l) * 6 + w),
                decreases 6 - w,
            {
                let value = values[w][l];
                out.push(value);
                w = w + 1;
                assert(out@ =~= old(out)@ + table.subrange(0, (done + l) * 6 + w));
            }
            l = l + 1;
        }
        done = done + valid;
    }
    assert(table.subrange(0, count * 6) =~= table);
}

/// The six wave values that the table holds for its entry `i`.
fn table_entry(table: &Vec<Flt>, first: usize, i: usize) -> (values: [Flt; 6])
    requires
        first + (i + 1) * 6 <= table@.len(),
    ensures
        values@ == table@.subrange(first + i * 6, first + i * 6 + 6),
{
    let len: usize = table.len();
    let at: usize = first + i * 6;
    let values = [
        table[at],
        table[at + 1],
        table[at + 2],
        table[at + 3],
        table[at + 4],
        table[at + 5],
    ];
    assert(values@ =~= table@.subrange(first + i * 6, first + i * 6 + 6));
    values
}

/// An index inside row `row` of the buffer has that row and its offset in it
/// as quotient and remainder by the pitch.
proof fn lemma_row_of_index(idx: int, pitch: int, row: int)
    requires
        pitch > 0,
        row * pitch <= idx < row * pitch + pitch,
    ensures
        idx / pitch == row,
        idx % pitch == idx - row * pitch,
{
    lemma_fundamental_div_mod_converse(idx, pitch, row, idx - row * pitch);
}

/// A byte offset inside pixel `col` of a row has that pixel and its place in
/// it as quotient and remainder by the pixel size.
proof fn lemma_pixel_of_offset(offset: int, size: int, col: int)
    requires
        size > 0,
        col * size <= offset < col * size + size,
    ensures
        offset / size == col,
        offset % size == offset - col * size,
{
    lemma_fundamental_div_mod_converse(offset, size, col, offset - col * size);
}

/// Draws a part of the field into `buffer` without a `Plasma` at hand.
///
/// `pw` and `ph` are the width and the height of the whole field, `x`, `y`,
/// `w` and `h` the part to draw, in pixels from the upper left corner, and
/// `pitch` the number of bytes from one row of the buffer to the next. The
/// part is cut to the field; a part that starts outside it draws nothing.
/// `phase_amps` is a bank in either form. `wrkspc` is scratch memory that a
/// caller may hand in again for the next frame; without one the call makes
/// its own.
pub fn render_part<B: PixelBuffer, M: Mixer, P: PhaseAmpsSelect + ?Sized>(
    mixer: &M,
    buffer: &mut [u8],
    pitch: usize,
    pw: u32,
    ph: u32,
    phase_amps: &P,
    x: usize,
    y: usize,
    w: usize,
    h: usize,
    wrkspc: Option<&mut Vec<Flt>>,
)
    requires
        can_render(
            old(buffer)@.len() as int,
            pitch,
            pw,
            ph,
            phase_amps.points().len() as int,
            x,
            y,
            w,
            h,
        ),
    ensures
        final(buffer)@ == render_result::<B, M>(
            old(buffer)@,
            phase_amps.points(),
            pitch,
            pw,
            ph,
            x,
            y,
            w,
            h,
        ),
        wrkspc matches Some(scratch) ==> final(scratch)@ == workspace_result(
            scratch@,
            phase_amps.points(),
            pw,
            ph,
            x,
            y,
            w,
            h,
        ),
{
    if x >= pw as usize {
        return ;
    } else if y >= ph as usize {
        return ;
    }
    match wrkspc {
        Some(scratch) => {
            render_visible::<B, M, P>(
                mixer,
                buffer,
                pitch,
                pw,
                ph,
                phase_amps,
                x,
                y,
                w,
                h,
                scratch,
                false,
            );
        },
        None => {
            let mut scratch: Vec<Flt> = Vec::new();
            render_visible::<B, M, P>(
                mixer,
                buffer,
                pitch,
                pw,
                ph,
                phase_amps,
                x,
                y,
                w,
                h,
                &mut scratch,
                false,
            );
        },
    }
}

/// Draws a part of the field into `buffer` as `render_part` does, byte for
/// byte, but evaluates the waves for eight neighbouring columns, and for
/// eight neighbouring rows, at a time.
///
/// `pw` and `ph` are the width and the height of the whole field, `x`, `y`,
/// `w` and `h` the part to draw, in pixels from the upper left corner, and
/// `pitch` the number of bytes from one row of the buffer to the next. The
/// part is cut to the field; a part that starts outside it draws nothing.
/// `phase_amps` is a bank in either form. `wrkspc` is scratch memory that a
/// caller may hand in again for the next frame; without one the call makes
/// its own.
pub fn render_part_batched<B: PixelBuffer, M: Mixer, P: PhaseAmpsSelect + ?Sized>(
    mixer: &M,
    buffer: &mut [u8],
    pitch: usize,
    pw: u32,
    ph: u32,
    phase_amps: &P,
    x: usize,
    y: usize,
    w: usize,
    h: usize,
    wrkspc: Option<&mut Vec<Flt>>,
)
    requires
        can_render(
            old(buffer)@.len() as int,
            pitch,
            pw,
            ph,
            phase_amps.points().len() as int,
            x,
            y,
            w,
            h,
        ),
    ensures
        final(buffer)@ == render_result::<B, M>(
            old(buffer)@,
            phase_amps.points(),
            pitch,
            pw,
            ph,
            x,
            y,
            w,
            h,
        ),
        wrkspc matches Some(scratch) ==> final(scratch)@ == workspace_result(
            scratch@,
            phase_amps.points(),
            pw,
            ph,
            x,
            y,
            w,
            h,
        ),
{
    if x >= pw as usize {
        return ;
    } else if y >= ph as usize {
        return ;
    }
    match wrkspc {
        Some(scratch) => {
            render_visible::<B, M, P>(
                mixer,
                buffer,
                pitch,
                pw,
                ph,
                phase_amps,
                x,
                y,
                w,
                h,
                scratch,
                true,
            );
        },
        None => {
            let mut scratch: Vec<Flt> = Vec::new();
            render_visible::<B, M, P>(
                mixer,
                buffer,
                pitch,
                pw,
                ph,
                phase_amps,
                x,
                y,
                w,
                h,
                &mut scratch,
                true,
            );
        },
    }
}

/// Evaluating the waves eight at a time changes nothing in the picture: a
/// buffer drawn by `render_part_batched` equals, byte for byte, the buffer
/// that `render_part` draws from the same state over the same part.
pub proof fn lemma_batched_equals_scalar<B: PixelBuffer, M: Mixer>(
    scalar: Seq<u8>,
    batched: Seq<u8>,
    before: Seq<u8>,
    points: Seq<PhaseAmpPoint>,
    pitch: usize,
    pw: u32,
    ph: u32,
    x: usize,
    y: usize,
    w: usize,
    h: usize,
)
    requires
        scalar == render_result::<B, M>(before, points, pitch, pw, ph, x, y, w, h),
        batched == render_result::<B, M>(before, points, pitch, pw, ph, x, y, w, h),
    ensures
        scalar == batched,
{
}

/// A part that starts at or behind the right or the lower edge of the field
/// leaves every byte of the buffer as it was.
pub proof fn lemma_part_outside_draws_nothing<B: PixelBuffer, M: Mixer>(
    before: Seq<u8>,
    points: Seq<PhaseAmpPoint>,
    pitch: usize,
    pw: u32,
    ph: u32,
    x: usize,
    y: usize,
    w: usize,
    h: usize,
)
    requires
        x >= pw || y >= ph,
    ensures
        render_result::<B, M>(before, points, pitch, pw, ph, x, y, w, h) == before,
{
}

/// Drawing keeps the length of the buffer, and touches no byte behind the
/// rows drawn nor, within a row, behind the pixels drawn.
pub proof fn lemma_drawing_stays_in_its_part<B: PixelBuffer, M: Mixer>(
    before: Seq<u8>,
    points: Seq<PhaseAmpPoint>,
    pitch: usize,
    pw: u32,
    ph: u32,
    x: usize,
    y: usize,
    w: usize,
    h: usize,
    idx: int,
)
    requires
        pitch > 0,
        0 <= idx < before.len(),
        idx / (pitch as int) >= visible_extent(ph, y, h) || idx % (pitch as int) >= visible_extent(
            pw,
            x,
            w,
        ) * B::PIXEL_BYTES,
    ensures
        render_result::<B, M>(before, points, pitch, pw, ph, x, y, w, h).len() == before.len(),
        render_result::<B, M>(before, points, pitch, pw, ph, x, y, w, h)[idx] == before[idx],
{
}

/// A part may be drawn in two bands, one below the other, each into its own
/// stretch of the buffer: the first `first` rows into the bytes before index
/// `first * pitch`, the remaining rows into the bytes from there on. The two
/// stretches side by side are the buffer that drawing the part at once
/// gives. So bands of rows can be handed to workers that share nothing but
/// the oscillators.
pub proof fn lemma_bands_compose<B: PixelBuffer, M: Mixer>(
    before: Seq<u8>,
    points: Seq<PhaseAmpPoint>,
    pitch: usize,
    pw: u32,
    ph: u32,
    x: usize,
    y: usize,
    w: usize,
    h: usize,
    first: usize,
)
    requires
        pitch > 0,
        first <= visible_extent(ph, y, h),
        pitch * visible_extent(ph, y, h) <= before.len(),
    ensures
        first * pitch <= before.len(),
        render_result::<B, M>(before, points, pitch, pw, ph, x, y, w, h) == render_result::<B, M>(
            before.subrange(0, first * pitch),
            points,
            pitch,
            pw,
            ph,
            x,
            y,
            w,
            first,
        ) + render_result::<B, M>(
            before.subrange(first * pitch, before.len() as int),
            points,
            pitch,
            pw,
            ph,
            x,
            (y + first) as usize,
            w,
            (h - first) as usize,
        ),
{
    let dy = visible_extent(ph, y, h);
    let split = first * pitch;
    assert(split <= pitch * dy) by (nonlinear_arith)
        requires
            first <= dy,
            pitch > 0,
            split == first * pitch,
    ;
    let upper_before = before.subrange(0, split);
    let lower_before = before.subrange(split, before.len() as int);
    let whole = render_result::<B, M>(before, points, pitch, pw, ph, x, y, w, h);
    let upper = render_result::<B, M>(upper_before, points, pitch, pw, ph, x, y, w, first);
    let lower = render_result::<B, M>(
        lower_before,
        points,
        pitch,
        pw,
        ph,
        x,
        (y + first) as usize,
        w,
        (h - first) as usize,
    );
    assert(before =~= upper_before + lower_before);
    if x >= pw || y >= ph {
        assert(whole =~= upper + lower);
    } else {
        assert(visible_extent(ph, y, first) == first);
        assert forall|idx: int| 0 <= idx < whole.len() implies whole[idx] == (upper + lower)[idx] by {
            let row = idx / (pitch as int);
            let offset = idx % (pitch as int);
            lemma_fundamental_div_mod(idx, pitch as int);
            if idx < split {
                assert(row < first) by (nonlinear_arith)
                    requires
                        idx < first * pitch,
                        idx == pitch * row + offset,
                        0 <= offset,
                        pitch > 0,
                ;
            } else {
                assert(idx - split == pitch * (row - first) + offset) by (nonlinear_arith)
                    requires
                        idx == pitch * row + offset,
                        split == first * pitch,
                ;
                assert(row >= first) by (nonlinear_arith)
                    requires
                        idx >= first * pitch,
                        idx == pitch * row + offset,
                        offset < pitch,
                        pitch > 0,
                ;
                lemma_fundamental_div_mod_converse(
                    idx - split,
                    pitch as int,
                    row - first,
                    offset,
                );
                if y + first < ph {
                    assert(visible_extent(ph, (y + first) as usize, (h - first) as usize) == dy
                        - first);
                } else {
                    assert(first == dy);
                }
            }
        }
        assert(whole =~= upper + lower);
    }
}

/// Draws a part that starts inside the field, with the wave values
/// evaluated one column at a time or, if `batched`, eight at a time.
fn render_visible<B: PixelBuffer, M: Mixer, P: PhaseAmpsSelect + ?Sized>(
    mixer: &M,
    buffer: &mut [u8],
    pitch: usize,
    pw: u32,
    ph: u32,
    phase_amps: &P,
    x: usize,
    y: usize,
    w: usize,
    h: usize,
    wrkspc: &mut Vec<Flt>,
    batched: bool,
)
    requires
        x < pw,
        y < ph,
        can_render(
            old(buffer)@.len() as int,
            pitch,
            pw,
            ph,
            phase_amps.points().len() as int,
            x,
            y,
            w,
            h,
        ),
    ensures
        final(buffer)@ == render_result::<B, M>(
            old(buffer)@,
            phase_amps.points(),
            pitch,
            pw,
            ph,
            x,
            y,
            w,
            h,
        ),
        final(wrkspc)@ == workspace_result(old(wrkspc)@, phase_amps.points(), pw, ph, x, y, w, h),
{
    let dx: usize = if w <= pw as usize - x {
        w
    } else {
        pw as usize - x
    };
    let dy: usize = if h <= ph as usize - y {
        h
    } else {
        ph as usize - y
    };
    let ghost points = phase_amps.points();
    let ghost before = buffer@;
    let waves_x = PlasmaLineCalcProducer::compose_x_iter(phase_amps);
    let waves_y = PlasmaLineCalcProducer::compose_y_iter(phase_amps);
    wrkspc.clear();
    if batched {
        prepare_composition_lanes(&waves_x, x, dx, pw, wrkspc);
        prepare_composition_lanes(&waves_y, y, dy, ph, wrkspc);
    } else {
        prepare_composition_line(&waves_x, x, dx, pw, wrkspc);
        prepare_composition_line(&waves_y, y, dy, ph, wrkspc);
    }
    let ghost table_x = axis_table(waves_x@, x as int, dx as int, pw);
    let ghost table_y = axis_table(waves_y@, y as int, dy as int, ph);
    assert(wrkspc@ =~= table_x + table_y);
    let size: usize = B::PIXEL_BYTES;
    proof {
        B::lemma_encoded_len(PixelRgb { r: Flt::zero(), g: Flt::zero(), b: Flt::zero() });
        assert(dy * pitch <= buffer@.len()) by (nonlinear_arith)
            requires
                pitch * dy <= buffer@.len(),
        ;
    }
    let buffer_len: usize = buffer.len();
    let table_len: usize = wrkspc.len();
    assert(table_len == dx * 6 + dy * 6);
    let first_row: usize = dx * 6;
    let mut row: usize = 0;
    while row < dy
        invariant
            row <= dy,
            pitch > 0,
            1 <= size <= 4,
            size == B::PIXEL_BYTES,
            x + dx <= pw,
            y + dy <= ph,
            dy * pitch <= buffer@.len(),
            buffer@.len() == before.len(),
            buffer@.len() == buffer_len,
            first_row == dx * 6,
            wrkspc@ == table_x + table_y,
            table_x == axis_table(waves_across(points), x as int, dx as int, pw),
            table_y == axis_table(waves_down(points), y as int, dy as int, ph),
            waves_across(points).len() == WAVES,
            waves_down(points).len() == WAVES,
            row * pitch <= buffer@.len(),
            forall|idx: int|
                0 <= idx < buffer@.len() ==> #[trigger] buffer@[idx] == if idx < row * pitch {
                    rendered_byte::<B, M>(
                        before,
                        points,
                        pitch as int,
                        pw,
                        ph,
                        x as int,
                        y as int,
                        dx as int,
                        dy as int,
                        idx,
                    )
                } else {
                    before[idx]
                },
        decreases dy - row,
    {
        proof {
            assert(row * pitch + pitch <= dy * pitch) by (nonlinear_arith)
                requires
                    row < dy,
                    pitch > 0,
            ;
        }
        let row_start: usize = row * pitch;
        let vyp = table_entry(wrkspc, first_row, row);
        assert(vyp@ =~= wave_values(waves_down(points), axis_angle(y + row, ph)));
        let mut col: usize = 0;
        let mut at: usize = row_start;
        while col < dx && at < row_start + pitch
            invariant
                col <= dx,
                row < dy,
                pitch > 0,
                1 <= size <= 4,
                size == B::PIXEL_BYTES,
                x + dx <= pw,
                y + dy <= ph,
                row_start == row * pitch,
                row_start + pitch <= buffer@.len(),
                buffer@.len() == before.len(),
                buffer@.len() == buffer_len,
                first_row == dx * 6,
                wrkspc@ == table_x + table_y,
                table_x == axis_table(waves_across(points), x as int, dx as int, pw),
                table_y == axis_table(waves_down(points), y as int, dy as int, ph),
                waves_across(points).len() == WAVES,
                vyp@ == wave_values(waves_down(points), axis_angle(y + row, ph)),
                at == if col * size <= pitch {
                    row_start + col * size
                } else {
                    row_start + pitch
                },
                forall|idx: int|
                    0 <= idx < buffer@.len() ==> #[trigger] buffer@[idx] == if idx < at {
                        rendered_byte::<B, M>(
                            before,
                            points,
                            pitch as int,
                            pw,
                            ph,
                            x as int,
                            y as int,
                            dx as int,
                            dy as int,
                            idx,
                        )
                    } else {
                        before[idx]
                    },
            decreases dx - col,
        {
            let vxp = table_entry(wrkspc, 0, col);
            assert(vxp@ =~= wave_values(waves_across(points), axis_angle(x + col, pw)));
            let pixel = mixer.mix_pixels(&vxp, &vyp);
            let ghost drawn = buffer@;
            let end: usize = row_start + pitch;
            let next = B::put_pixel(buffer, at, end, pixel);
            proof {
                B::lemma_encoded_len(pixel);
                assert(at == row_start + col * size);
                assert forall|idx: int| 0 <= idx < buffer@.len() implies #[trigger] buffer@[idx] == if idx
                    < next {
                    rendered_byte::<B, M>(
                        before,
                        points,
                        pitch as int,
                        pw,
                        ph,
                        x as int,
                        y as int,
                        dx as int,
                        dy as int,
                        idx,
                    )
                } else {
                    before[idx]
                } by {
                    if at <= idx < next {
                        lemma_row_of_index(idx, pitch as int, row as int);
                        lemma_pixel_of_offset(idx - row_start, size as int, col as int);
                        assert((col + 1) * size <= dx * size) by (nonlinear_arith)
                            requires
                                col < dx,
                                size > 0,
                        ;
                        assert((col + 1) * size == col * size + size) by (nonlinear_arith);
                        assert(buffer@[idx] == B::encoded(pixel)[idx - at]);
                        assert(idx / (pitch as int) == row);
                        assert(idx % (pitch as int) == idx - row_start);
                        assert((idx - row_start) / (size as int) == col);
                        assert((idx - row_start) % (size as int) == idx - at);
                        assert(pixel == pixel_colour::<M>(points, pw, ph, x + col, y + row));
                    } else {
                        assert(buffer@[idx] == drawn[idx]);
                    }
                }
                assert((col + 1) * size == col * size + size) by (nonlinear_arith);
            }
            at = next;
            col = col + 1;
        }
        proof {
            assert forall|idx: int| 0 <= idx < buffer@.len() implies #[trigger] buffer@[idx] == if idx < (row
                + 1) * pitch {
                rendered_byte::<B, M>(
                    before,
                    points,
                    pitch as int,
                    pw,
                    ph,
                    x as int,
                    y as int,
                    dx as int,
                    dy as int,
                    idx,
                )
            } else {
                before[idx]
            } by {
                assert((row + 1) * pitch == row * pitch + pitch) by (nonlinear_arith);
                if at <= idx < row_start + pitch {
                    lemma_row_of_index(idx, pitch as int, row as int);
                    if col * size <= pitch {
                        assert(col == dx);
                    }
                }
            }
            assert((row + 1) * pitch == row * pitch + pitch) by (nonlinear_arith);
        }
        row = row + 1;
    }
    proof {
        assert forall|idx: int| 0 <= idx < buffer@.len() implies #[trigger] buffer@[idx] == rendered_byte::<
            B,
            M,
        >(before, points, pitch as int, pw, ph, x as int, y as int, dx as int, dy as int, idx) by {
            if idx >= dy * pitch {
                assert(idx / (pitch as int) >= dy) by (nonlinear_arith)
                    requires
                        idx >= dy * pitch,
                        pitch > 0,
                ;
            }
        }
        assert(buffer@ =~= rendered::<B, M>(
            before,
            points,
            pitch as int,
            pw,
            ph,
            x as int,
            y as int,
            dx as int,
            dy as int,
        ));
    }
}

/// A plasma field: its size in pixels, the pace of its animation and the
/// bank of 24 oscillators that drive it. Oscillators 0 to 11 make the waves
/// that run across, oscillators 12 to 23 those that run down.
#[derive(Clone, Copy, Debug, PartialEq)]
pub struct Plasma {
    /// The width of the field in pixels.
    pub pixel_width: u32,
    /// The height of the field in pixels.
    pub pixel_height: u32,
    /// The pace of the animation.
    pub config: PhaseAmpCfg,
    /// The oscillators, in bank order.
    pub phase_amps: [PhaseAmp; 24],
    /// The mixer that turns wave values into colours.
    pub mixer: PlasmaMixer,
}

impl Plasma {
    /// The oscillators, in bank order. There are always 24.
    pub open spec fn bank(&self) -> Seq<PhaseAmp> {
        self.phase_amps@
    }

    /// The bank holds 24 oscillators, whatever was done to the field.
    pub proof fn lemma_bank_size(&self)
        ensures
            self.bank().len() == BANK_SIZE,
    {
    }

    /// A field of the given size and pace, with one oscillator made of each
    /// entry of `seeds`.
    pub fn new(pixel_width: u32, pixel_height: u32, config: PhaseAmpCfg, seeds: &[SeedDraws; 24]) -> (plasma:
        Plasma)
        requires
            pixel_width > 0,
            pixel_height > 0,
        ensures
            plasma.pixel_width == pixel_width,
            plasma.pixel_height == pixel_height,
            plasma.config == config,
            plasma.bank().len() == BANK_SIZE,
            forall|i: int| 0 <= i < BANK_SIZE ==> #[trigger] plasma.bank()[i] == PhaseAmp::seeded(seeds@[i]),
    {
        let blank = Flt { bits: 0 };
        let mut phase_amps: [PhaseAmp; 24] = [PhaseAmp {
            phase: blank,
            delta_phase: blank,
            amplitude: blank,
            source_amplitude: blank,
            delta_amplitude: blank,
            step_amplitude: blank,
            transition_amplitude: blank,
        }; 24];
        let mut i: usize = 0;
        while i < 24
            invariant
                i <= 24,
                forall|k: int| 0 <= k < i ==> #[trigger] phase_amps@[k] == PhaseAmp::seeded(seeds@[k]),
            decreases 24 - i,
        {
            phase_amps[i] = PhaseAmp::new(&seeds[i]);
            i = i + 1;
        }
        Plasma { pixel_width, pixel_height, config, phase_amps, mixer: PlasmaMixer::new() }
    }

    /// One animation step of every oscillator, each with its own entry of
    /// `draws`.
    pub fn update(&mut self, draws: &[TickDraws; 24])
        ensures
            final(self).pixel_width == old(self).pixel_width,
            final(self).pixel_height == old(self).pixel_height,
            final(self).config == old(self).config,
            final(self).bank().len() == BANK_SIZE,
            forall|i: int|
                0 <= i < BANK_SIZE ==> #[trigger] final(self).bank()[i] == old(self).bank()[i].updated(
                    old(self).config,
                    draws@[i],
                ),
    {
        let config = self.config;
        let mut i: usize = 0;
        while i < 24
            invariant
                i <= 24,
                self.pixel_width == old(self).pixel_width,
                self.pixel_height == old(self).pixel_height,
                self.config == old(self).config,
                config == self.config,
                forall|k: int|
                    0 <= k < i ==> #[trigger] self.phase_amps@[k] == old(self).phase_amps@[k].updated(
                        config,
                        draws@[k],
                    ),
                forall|k: int| i <= k < 24 ==> #[trigger] self.phase_amps@[k] == old(self).phase_amps@[k],
            decreases 24 - i,
        {
            let mut pa = self.phase_amps[i];
            pa.update(&config, &draws[i]);
            self.phase_amps[i] = pa;
            i = i + 1;
        }
    }

    /// The oscillators, in bank order.
    pub fn phase_amps(&self) -> (bank: &[PhaseAmp])
        ensures
            bank@ == self.bank(),
    {
        &self.phase_amps
    }

    /// Draws the whole field into `buffer`, whose rows are `pitch` bytes
    /// apart.
    pub fn render<B: PixelBuffer>(
        &self,
        buffer: &mut [u8],
        pitch: usize,
        wrkspc: Option<&mut Vec<Flt>>,
    )
        requires
            can_render(
                old(buffer)@.len() as int,
                pitch,
                self.pixel_width,
                self.pixel_height,
                BANK_SIZE as int,
                0,
                0,
                self.pixel_width as usize,
                self.pixel_height as usize,
            ),
        ensures
            final(buffer)@ == render_result::<B, PlasmaMixer>(
                old(buffer)@,
                points_of(self.bank()),
                pitch,
                self.pixel_width,
                self.pixel_height,
                0,
                0,
                self.pixel_width as usize,
                self.pixel_height as usize,
            ),
            wrkspc matches Some(scratch) ==> final(scratch)@ == workspace_result(
                scratch@,
                points_of(self.bank()),
                self.pixel_width,
                self.pixel_height,
                0,
                0,
                self.pixel_width as usize,
                self.pixel_height as usize,
            ),
    {
        self.render_part::<B>(
            buffer,
            pitch,
            0,
            0,
            self.pixel_width as usize,
            self.pixel_height as usize,
            wrkspc,
        )
    }

    /// Draws the part of `w` by `h` pixels at (`x`, `y`) into `buffer`, whose
    /// rows are `pitch` bytes apart. The part is cut to the field; a part
    /// that starts outside it draws nothing.
    pub fn render_part<B: PixelBuffer>(
        &self,
        buffer: &mut [u8],
        pitch: usize,
        x: usize,
        y: usize,
        w: usize,
        h: usize,
        wrkspc: Option<&mut Vec<Flt>>,
    )
        requires
            can_render(
                old(buffer)@.len() as int,
                pitch,
                self.pixel_width,
                self.pixel_height,
                BANK_SIZE as int,
                x,
                y,
                w,
                h,
            ),
        ensures
            final(buffer)@ == render_result::<B, PlasmaMixer>(
                old(buffer)@,
                points_of(self.bank()),
                pitch,
                self.pixel_width,
                self.pixel_height,
                x,
                y,
                w,
                h,
            ),
            wrkspc matches Some(scratch) ==> final(scratch)@ == workspace_result(
                scratch@,
                points_of(self.bank()),
                self.pixel_width,
                self.pixel_height,
                x,
                y,
                w,
                h,
            ),
    {
        let phase_amps: &[PhaseAmp] = &self.phase_amps;
        render_part::<B, PlasmaMixer, [PhaseAmp]>(
            &self.mixer,
            buffer,
            pitch,
            self.pixel_width,
            self.pixel_height,
            phase_amps,
            x,
            y,
            w,
            h,
            wrkspc,
        )
    }

    /// Draws what `render_part` draws, byte for byte, with the waves evaluated
    /// for eight neighbouring columns, and rows, at a time.
    pub fn render_part_batched<B: PixelBuffer>(
        &self,
        buffer: &mut [u8],
        pitch: usize,
        x: usize,
        y: usize,
        w: usize,
        h: usize,
        wrkspc: Option<&mut Vec<Flt>>,
    )
        requires
            can_render(
                old(buffer)@.len() as int,
                pitch,
                self.pixel_width,
                self.pixel_height,
                BANK_SIZE as int,
                x,
                y,
                w,
                h,
            ),
        ensures
            final(buffer)@ == render_result::<B, PlasmaMixer>(
                old(buffer)@,
                points_of(self.bank()),
                pitch,
                self.pixel_width,
                self.pixel_height,
                x,
                y,
                w,
                h,
            ),
            wrkspc matches Some(scratch) ==> final(scratch)@ == workspace_result(
                scratch@,
                points_of(self.bank()),
                self.pixel_width,
                self.pixel_height,
                x,
                y,
                w,
                h,
            ),
    {
        let phase_amps: &[PhaseAmp] = &self.phase_amps;
        render_part_batched::<B, PlasmaMixer, [PhaseAmp]>(
            &self.mixer,
            buffer,
            pitch,
            self.pixel_width,
            self.pixel_height,
            phase_amps,
            x,
            y,
            w,
            h,
            wrkspc,
        )
    }

    /// Overwrites the phase and the amplitude of every oscillator from the
    /// first 48 numbers of `source`, and leaves the rest of the field as it
    /// is.
    pub fn import_phase_amps(&mut self, source: &[Flt])
        requires
            source@.len() >= 2 * BANK_SIZE,
        ensures
            final(self).pixel_width == old(self).pixel_width,
            final(self).pixel_height == old(self).pixel_height,
            final(self).config == old(self).config,
            final(self).bank() == imported(old(self).bank(), source@),
    {
        let bank: &mut [PhaseAmp] = &mut self.phase_amps;
        bank.import_phase_amps(source);
    }

    /// Appends to `out` the phase and the amplitude of every oscillator, 48
    /// numbers in bank order.
    pub fn export_phase_amps(&self, out: &mut Vec<Flt>)
        ensures
            final(out)@ == old(out)@ + flat_of(points_of(self.bank())),
    {
        let bank: &[PhaseAmp] = &self.phase_amps;
        bank.export_phase_amps(out);
    }

    /// The least number of steps of an amplitude transition.
    pub fn min_steps(&self) -> (r: Flt)
        ensures
            r == self.config.min_steps,
    {
        self.config.min_steps()
    }

    /// The upper bound of the number of steps of an amplitude transition.
    pub fn max_steps(&self) -> (r: Flt)
        ensures
            r == self.config.max_steps,
    {
        self.config.max_steps()
    }
}

} // verus!
