//! The rasterizer: solid rectangles clipped to the window.

use crate::application_error::ApplicationError;
use crate::color::Color;
use crate::rectangle::Rectangle;
use crate::units::{nearest_pixel, to_whole_pixels, whole_pixels};
use vstd::prelude::*;

verus! {

/// Whether the pixel stored at `index`, in a buffer of `pitch` pixels to the
/// row, lies inside the rectangle: in a row from `bottom` up to but not
/// including `top`, and in a column from `left` up to but not including
/// `right`.
pub open spec fn covers(rectangle: Rectangle<usize>, pitch: int, index: int) -> bool {
    &&& pitch > 0
    &&& rectangle.bottom <= index / pitch < rectangle.top
    &&& rectangle.left <= index % pitch < rectangle.right
}

/// The buffer with every pixel inside the rectangle set to `color`.
pub open spec fn painted(
    buffer: Seq<Color>,
    pitch: int,
    rectangle: Rectangle<usize>,
    color: Color,
) -> Seq<Color> {
    Seq::new(
        buffer.len(),
        |index: int|
            if covers(rectangle, pitch, index) {
                color
            } else {
                buffer[index]
            },
    )
}

/// The number of pixels in one row of a window.
pub open spec fn pitch_of(window_bounds: Rectangle<i64>) -> int {
    whole_pixels(window_bounds.extent_x())
}

/// A buffer of `length` pixels holds every pixel of the window: the rows are
/// as long as the window is wide, no pixel lies right of the end of its row,
/// and the last row ends inside the buffer.
pub open spec fn window_fits(window_bounds: Rectangle<i64>, length: int) -> bool {
    &&& window_bounds.extents_fit()
    &&& 0 <= pitch_of(window_bounds) <= usize::MAX
    &&& window_bounds.right >= 0 ==> nearest_pixel(window_bounds.right as int) <= pitch_of(
        window_bounds,
    )
    &&& window_bounds.top >= 0 ==> nearest_pixel(window_bounds.top as int) * pitch_of(window_bounds)
        <= length
}

/// What painting `rectangle` into the window does to the buffer: nothing
/// where the clipped rectangle has no pixel form, else every pixel inside
/// the clipped and rounded rectangle is set to `color`.
pub open spec fn painted_clipped(
    buffer: Seq<Color>,
    window_bounds: Rectangle<i64>,
    rectangle: Rectangle<i64>,
    color: Color,
) -> Seq<Color> {
    match rectangle.bounded_by(window_bounds).rounded() {
        Ok(pixels) => painted(buffer, pitch_of(window_bounds), pixels, color),
        Err(_) => buffer,
    }
}

/// A place in row `row` and column `column` of a buffer is stored at
/// `row * pitch + column`, and nowhere else.
pub proof fn lemma_row_column(row: int, column: int, pitch: int, index: int)
    requires
        0 <= column < pitch,
    ensures
        (index == row * pitch + column) <==> (index / pitch == row && index % pitch == column),
{
    vstd::arithmetic::div_mod::lemma_fundamental_div_mod(index, pitch);
    vstd::arithmetic::div_mod::lemma_mod_bound(index, pitch);
    if index == row * pitch + column {
        vstd::arithmetic::div_mod::lemma_fundamental_div_mod_converse(index, pitch, row, column);
    } else if index / pitch == row && index % pitch == column {
        vstd::arithmetic::mul::lemma_mul_is_commutative(pitch, row);
    }
}

/// The nearest pixel does not come earlier for a longer length.
pub proof fn lemma_nearest_pixel_is_monotonic(shorter: int, longer: int)
    requires
        shorter <= longer,
    ensures
        nearest_pixel(shorter) <= nearest_pixel(longer),
{
}

/// A rectangle without columns or without rows covers no pixel.
pub proof fn lemma_empty_rectangle_paints_nothing(
    buffer: Seq<Color>,
    pitch: int,
    rectangle: Rectangle<usize>,
    color: Color,
)
    requires
        rectangle.right <= rectangle.left || rectangle.top <= rectangle.bottom,
    ensures
        painted(buffer, pitch, rectangle, color) == buffer,
{
    assert(painted(buffer, pitch, rectangle, color) =~= buffer);
}

/// Sets every pixel of `rectangle` that lies inside the window to `color`.
///
/// The rectangle is clipped to the window and rounded to pixels. Where an
/// edge of the clipped rectangle has no pixel, the error is returned and the
/// buffer is left as it is. A clipped rectangle without columns leaves the
/// buffer as it is too.
pub fn render_rectangle(
    window_bounds: &Rectangle<i64>,
    rectangle: &Rectangle<i64>,
    color: Color,
    buffer: &mut [Color],
) -> (result: Result<(), ApplicationError>)
    requires
        window_fits(*window_bounds, old(buffer)@.len() as int),
    ensures
        final(buffer)@ == painted_clipped(old(buffer)@, *window_bounds, *rectangle, color),
        (match rectangle.bounded_by(*window_bounds).rounded() {
            Ok(pixels) => result is Ok && (pixels.right <= pixels.left ==> final(buffer)@ == old(
                buffer,
            )@),
            Err(error) => result == Err::<(), ApplicationError>(error),
        }),
{
    let clipped = rectangle.bound_to(window_bounds);
    let pixels = match clipped.round_to_usize() {
        Ok(pixels) => pixels,
        Err(error) => {
            return Err(error);
        },
    };
    let ghost before = buffer@;
    let ghost pitch_int = pitch_of(*window_bounds);
    if pixels.right <= pixels.left {
        // Without columns there is nothing to paint in any row.
        proof {
            lemma_empty_rectangle_paints_nothing(before, pitch_int, pixels, color);
        }
        return Ok(());
    }
    if pixels.top <= pixels.bottom {
        proof {
            lemma_empty_rectangle_paints_nothing(before, pitch_int, pixels, color);
        }
        return Ok(());
    }
    let pitch = to_whole_pixels(window_bounds.width()) as usize;
    proof {
        lemma_nearest_pixel_is_monotonic(clipped.right as int, window_bounds.right as int);
        lemma_nearest_pixel_is_monotonic(clipped.top as int, window_bounds.top as int);
        assert(pixels.top * pitch <= nearest_pixel(window_bounds.top as int) * pitch)
            by (nonlinear_arith)
            requires
                pixels.top <= nearest_pixel(window_bounds.top as int),
                pitch >= 0,
        ;
        assert(pixels.bottom * pitch <= pixels.top * pitch) by (nonlinear_arith)
            requires
                pixels.bottom <= pixels.top,
                pitch >= 0,
        ;
    }
    let length = buffer.len();
    let mut y = pixels.bottom;
    while y < pixels.top
        invariant
            pixels.bottom <= y <= pixels.top,
            pixels.left < pixels.right <= pitch,
            pitch == pitch_int,
            pixels.top * pitch <= length,
            length == buffer@.len(),
            length == before.len(),
            buffer@ == painted(before, pitch_int, Rectangle { top: y, ..pixels }, color),
        decreases pixels.top - y,
    {
        proof {
            assert((y + 1) * pitch <= pixels.top * pitch) by (nonlinear_arith)
                requires
                    y + 1 <= pixels.top,
                    pitch >= 0,
            ;
            assert((y + 1) * pitch == y * pitch + pitch) by (nonlinear_arith);
            vstd::arithmetic::mul::lemma_mul_nonnegative(y as int, pitch as int);
        }
        let mut index = y * pitch + pixels.left;
        let mut x = pixels.left;
        while x < pixels.right
            invariant
                pixels.bottom <= y < pixels.top,
                pixels.left <= x <= pixels.right,
                pixels.right <= pitch,
                pitch == pitch_int,
                y * pitch + pitch <= length,
                length == buffer@.len(),
                length == before.len(),
                index == y * pitch + x,
                forall|i: int|
                    0 <= i < length ==> #[trigger] buffer@[i] == if covers(
                        Rectangle { top: y, ..pixels },
                        pitch_int,
                        i,
                    ) || (i / pitch_int == y && pixels.left <= i % pitch_int < x) {
                        color
                    } else {
                        before[i]
                    },
            decreases pixels.right - x,
        {
            let ghost earlier = buffer@;
            buffer[index] = color;
            proof {
                assert forall|i: int| 0 <= i < length implies #[trigger] buffer@[i] == if covers(
                    Rectangle { top: y, ..pixels },
                    pitch_int,
                    i,
                ) || (i / pitch_int == y && pixels.left <= i % pitch_int < x + 1) {
                    color
                } else {
                    before[i]
                } by {
                    lemma_row_column(y as int, x as int, pitch_int, i);
                    assert(earlier[i] == if covers(Rectangle { top: y, ..pixels }, pitch_int, i)
                        || (i / pitch_int == y && pixels.left <= i % pitch_int < x) {
                        color
                    } else {
                        before[i]
                    });
                }
            }
            index += 1;
            x += 1;
        }
        y += 1;
        proof {
            assert(buffer@ =~= painted(before, pitch_int, Rectangle { top: y, ..pixels }, color));
        }
    }
    Ok(())
}

/// Makes the buffer hold exactly one pixel for each pixel of a picture of
/// the given size. Pixels that stay keep their colour; pixels that are added
/// are black.
pub fn resize_buffer(buffer: &mut Vec<Color>, width: u16, height: u16)
    ensures
        final(buffer)@.len() == width * height,
        forall|i: int|
            0 <= i < final(buffer)@.len() ==> #[trigger] final(buffer)@[i] == (if i < old(
                buffer,
            )@.len() {
                old(buffer)@[i]
            } else {
                Color { red: 0, green: 0, blue: 0, alpha: 0 }
            }),
{
    assert(0 <= width * height <= 0xFFFF * 0xFFFF) by (nonlinear_arith)
        requires
            0 <= width <= 0xFFFF,
            0 <= height <= 0xFFFF,
    ;
    let pixel_count = width as usize * height as usize;
    if pixel_count > buffer.len() {
        buffer.resize(pixel_count, Color::default());
        assert(forall|i: int|
            0 <= i < old(buffer)@.len() ==> buffer@[i] == buffer@.subrange(
                0,
                old(buffer)@.len() as int,
            )[i]);
    } else if pixel_count < buffer.len() {
        buffer.truncate(pixel_count);
    }
}

} // verus!
