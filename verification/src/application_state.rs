//! The state of the game before it had a world: a scrolling picture, a box
//! that can be steered and can jump, and the tone.

use crate::controller_state::ControllerState;
use crate::input_state::InputState;
use crate::pixel::Pixel;
use crate::render::lemma_row_column;
use crate::sound_state::{initial_tone, SoundState};
use crate::units::{trunc_div, RATIO_ONE};
use vstd::prelude::*;

verus! {

/// The value that stands for a jump that has just begun: jump time is
/// counted in thousandths.
pub const JUMP_START: u16 = 1000;

/// What a jump loses in each frame, in thousandths.
pub const JUMP_STEP: u16 = 33;

/// The scroll offsets of the picture, the tone, the place and jump of the
/// box, and the size of the picture.
#[derive(Debug, Clone, Copy)]
pub struct ApplicationState {
    pub x_offset: u16,
    pub y_offset: u16,
    pub sound: SoundState,
    pub player_x: u16,
    pub player_y: u16,
    pub width: u16,
    pub height: u16,
    pub jump_time: u16,
}

/// `value` brought into the range of `i16` by taking the nearest limit.
pub open spec fn saturated(value: int) -> int {
    if value < i16::MIN {
        i16::MIN as int
    } else if value > i16::MAX {
        i16::MAX as int
    } else {
        value
    }
}

/// `value` brought into the range of `u16` by taking whole turns of 65536
/// off or on.
pub open spec fn wrapped(value: int) -> int {
    value % 0x1_0000
}

/// The number that the bits of a `u16` stand for when read as an `i16`.
pub open spec fn reinterpreted(value: int) -> int {
    if value > i16::MAX {
        value - 0x1_0000
    } else {
        value
    }
}

/// The distance of a number from zero.
pub open spec fn magnitude(value: int) -> int {
    if value < 0 {
        -value
    } else {
        value
    }
}

/// The scroll step that the arrow keys ask for along one axis: five pixels
/// for each press of `toward` more than of `away`, kept in the range of
/// `i16`.
pub open spec fn keyboard_shift(toward: u16, away: u16) -> int {
    saturated(5 * (reinterpreted(toward as int) - reinterpreted(away as int)))
}

/// The ratio that a controller gives along one axis: one where `first` is
/// down, minus one where only `second` is down, the given stick ratio
/// otherwise.
pub open spec fn directed_ratio(first: bool, second: bool, sticks: int) -> int {
    if first {
        RATIO_ONE as int
    } else if second {
        -RATIO_ONE
    } else {
        sticks
    }
}

/// The step of at most five pixels that a ratio asks for, rounded toward
/// zero and kept in the range of `i16`.
pub open spec fn ratio_shift(ratio: int) -> int {
    saturated(trunc_div(ratio * 5, RATIO_ONE as int))
}

/// The pitch that a pair of vertical ratios asks for: 512 turns per second
/// with both at rest, 256 more or less at full tilt of both, never below
/// zero and never above what a `u32` holds.
pub open spec fn pitch_for(left: int, right: int) -> int {
    let pitch = trunc_div(2 * 512 * RATIO_ONE + 256 * (left + right), 2 * RATIO_ONE);
    if pitch < 0 {
        0
    } else if pitch > u32::MAX {
        u32::MAX as int
    } else {
        pitch
    }
}

/// The place of the box along one axis after a step: the step is taken off
/// the place as if both were 16-bit signed numbers that wrap, the distance
/// of the result from zero is taken, and that is kept at or below `limit`.
pub open spec fn stepped(place: u16, step: int, limit: int) -> int {
    let moved = magnitude(reinterpreted(wrapped(reinterpreted(place as int) - step)));
    if moved < limit {
        moved
    } else {
        limit
    }
}

/// The jump time one frame later: a jump begins where the button is down and
/// no jump is under way, and a jump under way loses a step until none is
/// left.
pub open spec fn jump_after(jump_time: u16, button_down: bool) -> int {
    if button_down && jump_time == 0 {
        JUMP_START as int
    } else if jump_time > JUMP_STEP {
        jump_time - JUMP_STEP
    } else {
        0
    }
}

impl ApplicationState {
    /// The width of the box in pixels.
    pub const PLAYER_WIDTH: u16 = 10;

    /// The height of the box in pixels.
    pub const PLAYER_HEIGHT: u16 = 10;

    /// The picture is large enough for the box and the tone is well formed.
    pub open spec fn wf(self) -> bool {
        &&& self.width >= Self::PLAYER_WIDTH
        &&& self.height >= Self::PLAYER_HEIGHT
        &&& self.sound.wf()
    }

    /// The state after the keyboard has been looked at.
    pub open spec fn after_keyboard(self, keyboard: ControllerState) -> Self {
        if !keyboard.enabled {
            self
        } else {
            ApplicationState {
                x_offset: wrapped(
                    self.x_offset + keyboard_shift(
                        keyboard.left.half_transition_count,
                        keyboard.right.half_transition_count,
                    ),
                ) as u16,
                y_offset: wrapped(
                    self.y_offset + keyboard_shift(
                        keyboard.up.half_transition_count,
                        keyboard.down.half_transition_count,
                    ),
                ) as u16,
                ..self
            }
        }
    }

    /// The state after one controller has been looked at.
    pub open spec fn after_controller(self, controller: ControllerState) -> Self {
        if !controller.enabled {
            self
        } else {
            let shift_x = ratio_shift(
                directed_ratio(
                    controller.left.ended_down,
                    controller.right.ended_down,
                    -(controller.left_joystick.x_ratio + controller.right_joystick.x_ratio),
                ),
            );
            let shift_y = ratio_shift(
                directed_ratio(
                    controller.up.ended_down,
                    controller.down.ended_down,
                    controller.left_joystick.y_ratio + controller.right_joystick.y_ratio,
                ),
            );
            ApplicationState {
                x_offset: wrapped(self.x_offset + saturated(-shift_x)) as u16,
                y_offset: wrapped(self.y_offset + saturated(-shift_y)) as u16,
                player_x: stepped(self.player_x, shift_x, self.width - Self::PLAYER_WIDTH) as u16,
                player_y: stepped(
                    self.player_y,
                    shift_y,
                    self.height - Self::PLAYER_HEIGHT,
                ) as u16,
                sound: SoundState {
                    hertz: pitch_for(
                        directed_ratio(
                            controller.up.ended_down,
                            controller.down.ended_down,
                            controller.left_joystick.y_ratio as int,
                        ),
                        controller.right_joystick.y_ratio as int,
                    ) as u32,
                    ..self.sound
                },
                jump_time: jump_after(self.jump_time, controller.a.ended_down) as u16,
                ..self
            }
        }
    }

    /// The state after the controllers from number `from` on have been
    /// looked at, one after the other.
    pub open spec fn after_controllers(self, controllers: Seq<ControllerState>, from: int) -> Self
        decreases controllers.len() - from,
    {
        if from < 0 || from >= controllers.len() {
            self
        } else {
            self.after_controller(controllers[from]).after_controllers(controllers, from + 1)
        }
    }

    /// The pixel of the scrolling picture that is stored at `index`: no red,
    /// and green and blue that grow down and to the right and start again
    /// every 256 pixels.
    pub open spec fn pixel_at(self, index: int) -> Pixel {
        Pixel {
            red: 0,
            green: ((index / self.width as int + self.y_offset) % 0x100) as u8,
            blue: ((index % self.width as int + self.x_offset) % 0x100) as u8,
            alpha: 0,
        }
    }

    /// The buffer with the scrolling picture painted over its first
    /// `width * height` pixels.
    pub open spec fn pictured(self, buffer: Seq<Pixel>) -> Seq<Pixel> {
        Seq::new(
            buffer.len(),
            |index: int|
                if index < self.width * self.height {
                    self.pixel_at(index)
                } else {
                    buffer[index]
                },
        )
    }

    /// The state the game starts in.
    #[must_use]
    pub fn new() -> (state: Self)
        ensures
            state == (ApplicationState {
                x_offset: 0,
                y_offset: 0,
                sound: initial_tone(),
                player_x: 0,
                player_y: 0,
                width: 0,
                height: 0,
                jump_time: 0,
            }),
    {
        ApplicationState {
            x_offset: 0,
            y_offset: 0,
            sound: SoundState::new(),
            player_x: 0,
            player_y: 0,
            width: 0,
            height: 0,
            jump_time: 0,
        }
    }

    /// Paints the scrolling picture into the buffer, row by row.
    pub fn render(&self, bitmap_buffer: &mut [Pixel])
        requires
            old(bitmap_buffer)@.len() >= self.width * self.height,
        ensures
            final(bitmap_buffer)@ == self.pictured(old(bitmap_buffer)@),
    {
        let width = self.width as usize;
        let height = self.height as usize;
        let ghost before = bitmap_buffer@;
        let mut index: usize = 0;
        let mut y: usize = 0;
        proof {
            vstd::arithmetic::mul::lemma_mul_basics(width as int);
        }
        while y < height
            invariant
                width == self.width,
                height == self.height,
                y <= height,
                index == y * width,
                bitmap_buffer@.len() == before.len(),
                before.len() >= width * height,
                forall|i: int|
                    0 <= i < before.len() ==> #[trigger] bitmap_buffer@[i] == if i < index {
                        self.pixel_at(i)
                    } else {
                        before[i]
                    },
            decreases height - y,
        {
            let mut x: usize = 0;
            proof {
                assert((y + 1) * width <= height * width) by (nonlinear_arith)
                    requires
                        y + 1 <= height,
                        width >= 0,
                ;
                assert((y + 1) * width == y * width + width) by (nonlinear_arith);
                vstd::arithmetic::mul::lemma_mul_is_commutative(width as int, height as int);
            }
            while x < width
                invariant
                    width == self.width,
                    height == self.height,
                    y < height,
                    x <= width,
                    index == y * width + x,
                    y * width + width <= width * height,
                    bitmap_buffer@.len() == before.len(),
                    before.len() >= width * height,
                    forall|i: int|
                        0 <= i < before.len() ==> #[trigger] bitmap_buffer@[i] == if i < index {
                            self.pixel_at(i)
                        } else {
                            before[i]
                        },
                decreases width - x,
            {
                let color = Pixel::from_rgb(
                    0,
                    ((y as u32 + self.y_offset as u32) % 0x100) as u8,
                    ((x as u32 + self.x_offset as u32) % 0x100) as u8,
                );
                proof {
                    lemma_row_column(y as int, x as int, width as int, index as int);
                }
                bitmap_buffer[index] = color;
                index += 1;
                x += 1;
            }
            y += 1;
        }
        proof {
            vstd::arithmetic::mul::lemma_mul_is_commutative(width as int, height as int);
            assert(bitmap_buffer@ =~= self.pictured(before));
        }
    }

    /// How far the picture is scrolled down.
    #[must_use]
    pub fn y_offset(&self) -> (offset: u16)
        ensures
            offset == self.y_offset,
    {
        self.y_offset
    }

    /// How far the picture is scrolled to the right.
    #[must_use]
    pub fn x_offset(&self) -> (offset: u16)
        ensures
            offset == self.x_offset,
    {
        self.x_offset
    }

    /// The steps that the phase of the tone advances from one sample to the
    /// next.
    #[must_use]
    pub fn time_delta(&self) -> (step: u32)
        requires
            self.sound.samples_per_seconds > 0,
        ensures
            step == self.sound.step(),
    {
        self.sound.time_delta()
    }

    /// The phase of the tone.
    #[must_use]
    pub fn sound_theta(&self) -> (theta: u32)
        ensures
            theta == self.sound.theta,
    {
        self.sound.theta()
    }

    /// Advances the phase of the tone by `amount` steps, taking whole turns
    /// off.
    pub fn advance_sound_theta(&mut self, amount: u32)
        requires
            old(self).sound.samples_per_seconds > 0,
        ensures
            *final(self) == (ApplicationState {
                sound: SoundState {
                    theta: ((old(self).sound.theta + amount) % old(
                        self,
                    ).sound.samples_per_seconds as int) as u32,
                    ..old(self).sound
                },
                ..*old(self)
            }),
    {
        self.sound.advance_theta(amount);
    }

    /// The loudness of the tone.
    #[must_use]
    pub fn sound_volume(&self) -> (volume: i16)
        ensures
            volume == self.sound.volume,
    {
        self.sound.volume()
    }

    /// Applies the input of one frame: the keyboard first, then every
    /// controller in turn.
    pub fn handle_input(&mut self, input_state: &InputState)
        requires
            old(self).wf(),
        ensures
            *final(self) == old(self).after_keyboard(input_state.keyboard).after_controllers(
                input_state.controllers@,
                0,
            ),
            final(self).width == old(self).width,
            final(self).height == old(self).height,
    {
        self.handle_keyboard_input(input_state.keyboard());
        let controllers = input_state.controllers();
        let ghost start = *self;
        let mut index: usize = 0;
        while index < controllers.len()
            invariant
                index <= controllers@.len(),
                controllers@ == input_state.controllers@,
                self.width == old(self).width,
                self.height == old(self).height,
                self.width >= Self::PLAYER_WIDTH,
                self.height >= Self::PLAYER_HEIGHT,
                start.after_controllers(controllers@, 0) == self.after_controllers(
                    controllers@,
                    index as int,
                ),
            decreases controllers@.len() - index,
        {
            self.handle_controller_input(&controllers[index]);
            index += 1;
        }
    }

    /// Scrolls the picture by what the arrow keys ask for.
    pub fn handle_keyboard_input(&mut self, keyboard: &ControllerState)
        ensures
            *final(self) == old(self).after_keyboard(*keyboard),
    {
        if !keyboard.enabled() {
            return;
        }
        let shift_left = keyboard.left().half_transition_count();
        let shift_right = keyboard.right().half_transition_count();
        let shift_x = Self::keyboard_step(shift_left, shift_right);
        self.shift_x(shift_x);

        let shift_up = keyboard.up().half_transition_count();
        let shift_down = keyboard.down().half_transition_count();
        let shift_y = Self::keyboard_step(shift_up, shift_down);
        self.shift_y(shift_y);
    }

    /// The scroll step along one axis that two counts of presses ask for.
    pub fn keyboard_step(toward: u16, away: u16) -> (step: i16)
        ensures
            step == keyboard_shift(toward, away),
    {
        let difference: i32 = Self::cast_signed(toward) as i32 - Self::cast_signed(away) as i32;
        Self::saturate(difference * 5)
    }

    /// Applies what one controller asks for: scrolling, steering, pitch and
    /// jump.
    pub fn handle_controller_input(&mut self, controller: &ControllerState)
        requires
            old(self).width >= Self::PLAYER_WIDTH,
            old(self).height >= Self::PLAYER_HEIGHT,
        ensures
            *final(self) == old(self).after_controller(*controller),
    {
        if !controller.enabled() {
            return;
        }
        self.shift_x_using_controller(controller);
        self.shift_y_using_controller(controller);
        self.set_hertz_using_controller(controller);

        if controller.a().ended_down() && self.jump_time == 0 {
            self.jump();
        } else if self.jump_time > JUMP_STEP {
            self.jump_time = self.jump_time - JUMP_STEP;
        } else {
            self.jump_time = 0;
        }
    }

    /// Scrolls the picture and steers the box along the horizontal axis.
    pub fn shift_x_using_controller(&mut self, controller: &ControllerState)
        requires
            old(self).width >= Self::PLAYER_WIDTH,
        ensures
            *final(self) == (ApplicationState {
                x_offset: old(self).after_controller(
                    ControllerState { enabled: true, ..*controller },
                ).x_offset,
                player_x: old(self).after_controller(
                    ControllerState { enabled: true, ..*controller },
                ).player_x,
                ..*old(self)
            }),
    {
        let shift_x_ratio: i128 = if controller.left().ended_down() {
            RATIO_ONE as i128
        } else if controller.right().ended_down() {
            -(RATIO_ONE as i128)
        } else {
            -(controller.left_joystick().x_ratio() as i128 + controller.right_joystick().x_ratio()
                as i128)
        };
        let shift_x = Self::ratio_step(shift_x_ratio);
        self.shift_x(Self::saturating_neg(shift_x));
        self.set_player_x(Self::step_from(self.player_x(), shift_x));
    }

    /// Scrolls the picture and steers the box along the vertical axis.
    pub fn shift_y_using_controller(&mut self, controller: &ControllerState)
        requires
            old(self).height >= Self::PLAYER_HEIGHT,
        ensures
            *final(self) == (ApplicationState {
                y_offset: old(self).after_controller(
                    ControllerState { enabled: true, ..*controller },
                ).y_offset,
                player_y: old(self).after_controller(
                    ControllerState { enabled: true, ..*controller },
                ).player_y,
                ..*old(self)
            }),
    {
        let shift_y_ratio: i128 = if controller.up().ended_down() {
            RATIO_ONE as i128
        } else if controller.down().ended_down() {
            -(RATIO_ONE as i128)
        } else {
            controller.left_joystick().y_ratio() as i128 + controller.right_joystick().y_ratio()
                as i128
        };
        let shift_y = Self::ratio_step(shift_y_ratio);
        self.shift_y(Self::saturating_neg(shift_y));
        self.set_player_y(Self::step_from(self.player_y(), shift_y));
    }

    /// Sets the pitch of the tone from the vertical ratios. The change takes
    /// effect with the next sample and leaves the phase as it is.
    pub fn set_hertz_using_controller(&mut self, controller: &ControllerState)
        ensures
            *final(self) == (ApplicationState {
                sound: old(self).after_controller(
                    ControllerState { enabled: true, ..*controller },
                ).sound,
                ..*old(self)
            }),
    {
        let left_thumb_y_ratio: i128 = if controller.up().ended_down() {
            RATIO_ONE as i128
        } else if controller.down().ended_down() {
            -(RATIO_ONE as i128)
        } else {
            controller.left_joystick().y_ratio() as i128
        };
        let right_thumb_y_ratio: i128 = controller.right_joystick().y_ratio() as i128;
        let doubled: i128 = 2 * 512 * (RATIO_ONE as i128) + 256 * (left_thumb_y_ratio
            + right_thumb_y_ratio);
        let hertz: i128 = if doubled < 0 {
            0
        } else {
            doubled / (2 * RATIO_ONE as i128)
        };
        let hertz: u32 = if hertz > u32::MAX as i128 {
            u32::MAX
        } else {
            hertz as u32
        };
        self.sound.set_hertz(hertz);
    }

    /// Scrolls the picture to the right by `shift` pixels, going round at
    /// the ends of the range of the offset.
    pub fn shift_x(&mut self, shift: i16)
        ensures
            *final(self) == (ApplicationState {
                x_offset: wrapped(old(self).x_offset + shift) as u16,
                ..*old(self)
            }),
    {
        self.x_offset = Self::shift(self.x_offset, shift);
    }

    /// Scrolls the picture down by `shift` pixels, going round at the ends of
    /// the range of the offset.
    pub fn shift_y(&mut self, shift: i16)
        ensures
            *final(self) == (ApplicationState {
                y_offset: wrapped(old(self).y_offset + shift) as u16,
                ..*old(self)
            }),
    {
        self.y_offset = Self::shift(self.y_offset, shift);
    }

    /// An offset moved by `shift`, going round at the ends of its range.
    pub fn shift(offset: u16, shift: i16) -> (moved: u16)
        ensures
            moved == wrapped(offset + shift),
    {
        let sum: i32 = offset as i32 + shift as i32;
        if sum < 0 {
            (sum + 0x1_0000) as u16
        } else if sum >= 0x1_0000 {
            (sum - 0x1_0000) as u16
        } else {
            sum as u16
        }
    }

    /// The number of channels of the tone.
    #[must_use]
    pub fn sound_channel_count(&self) -> (count: u16)
        ensures
            count == self.sound.channel_count,
    {
        self.sound.channel_count()
    }

    /// Samples of the tone played in one second.
    #[must_use]
    pub fn sound_samples_per_second(&self) -> (samples: u32)
        ensures
            samples == self.sound.samples_per_seconds,
    {
        self.sound.samples_per_second()
    }

    /// Bits in the value of one channel of the tone.
    #[must_use]
    pub fn sound_bits_per_sample(&self) -> (bits: u16)
        ensures
            bits == self.sound.bits_per_sample,
    {
        self.sound.bits_per_sample()
    }

    /// Bytes that one sample of the tone takes.
    #[must_use]
    pub fn sound_bytes_per_sample(&self) -> (bytes: u32)
        ensures
            bytes == self.sound.bytes_per_sample,
    {
        self.sound.bytes_per_sample()
    }

    /// Bytes that one second of the tone takes.
    #[must_use]
    pub fn sound_buffer_size(&self) -> (bytes: u32)
        requires
            self.sound.samples_per_seconds * self.sound.bytes_per_sample <= u32::MAX,
        ensures
            bytes == self.sound.samples_per_seconds * self.sound.bytes_per_sample,
    {
        self.sound.buffer_size()
    }

    /// The horizontal place of the box.
    #[must_use]
    pub fn player_x(&self) -> (x: u16)
        ensures
            x == self.player_x,
    {
        self.player_x
    }

    /// Puts the box at `value`, or as far right as the picture lets it.
    pub fn set_player_x(&mut self, value: u16)
        requires
            old(self).width >= Self::PLAYER_WIDTH,
        ensures
            *final(self) == (ApplicationState {
                player_x: if value < old(self).width - Self::PLAYER_WIDTH {
                    value
                } else {
                    (old(self).width - Self::PLAYER_WIDTH) as u16
                },
                ..*old(self)
            }),
    {
        let limit = self.width - Self::PLAYER_WIDTH;
        self.player_x = if value < limit {
            value
        } else {
            limit
        };
    }

    /// The vertical place of the box.
    #[must_use]
    pub fn player_y(&self) -> (y: u16)
        ensures
            y == self.player_y,
    {
        self.player_y
    }

    /// Puts the box at `value`, or as far down as the picture lets it.
    pub fn set_player_y(&mut self, value: u16)
        requires
            old(self).height >= Self::PLAYER_HEIGHT,
        ensures
            *final(self) == (ApplicationState {
                player_y: if value < old(self).height - Self::PLAYER_HEIGHT {
                    value
                } else {
                    (old(self).height - Self::PLAYER_HEIGHT) as u16
                },
                ..*old(self)
            }),
    {
        let limit = self.height - Self::PLAYER_HEIGHT;
        self.player_y = if value < limit {
            value
        } else {
            limit
        };
    }

    /// The width of the picture in pixels.
    #[must_use]
    pub fn width(&self) -> (width: u16)
        ensures
            width == self.width,
    {
        self.width
    }

    /// Records the width of the picture.
    pub fn set_width(&mut self, value: u16)
        ensures
            *final(self) == (ApplicationState { width: value, ..*old(self) }),
    {
        self.width = value;
    }

    /// The height of the picture in pixels.
    #[must_use]
    pub fn height(&self) -> (height: u16)
        ensures
            height == self.height,
    {
        self.height
    }

    /// Records the height of the picture.
    pub fn set_height(&mut self, value: u16)
        ensures
            *final(self) == (ApplicationState { height: value, ..*old(self) }),
    {
        self.height = value;
    }

    /// Begins a jump, unless one is under way.
    pub fn jump(&mut self)
        ensures
            *final(self) == (ApplicationState {
                jump_time: if old(self).jump_time == 0 {
                    JUMP_START
                } else {
                    old(self).jump_time
                },
                ..*old(self)
            }),
    {
        if self.jump_time == 0 {
            self.jump_time = JUMP_START;
        }
    }

    /// How much of the jump is left, in thousandths; zero on the ground.
    #[must_use]
    pub fn jump_time(&self) -> (jump_time: u16)
        ensures
            jump_time == self.jump_time,
    {
        self.jump_time
    }

    /// The number that the bits of `value` stand for when read as an `i16`.
    pub fn cast_signed(value: u16) -> (signed: i16)
        ensures
            signed == reinterpreted(value as int),
    {
        if value > 0x7FFF {
            (value as i32 - 0x1_0000) as i16
        } else {
            value as i16
        }
    }

    /// `value` brought into the range of `i16`.
    pub fn saturate(value: i32) -> (result: i16)
        ensures
            result == saturated(value as int),
    {
        if value < -0x8000 {
            -0x8000
        } else if value > 0x7FFF {
            0x7FFF
        } else {
            value as i16
        }
    }

    /// The opposite of `value`, kept in the range of `i16`.
    pub fn saturating_neg(value: i16) -> (result: i16)
        ensures
            result == saturated(-(value as int)),
    {
        Self::saturate(0 - value as i32)
    }

    /// The step of at most five pixels that a ratio asks for.
    pub fn ratio_step(ratio: i128) -> (step: i16)
        requires
            -0x1_0000_0000_0000_0000 <= ratio <= 0x1_0000_0000_0000_0000,
        ensures
            step == ratio_shift(ratio as int),
    {
        let scaled: i128 = ratio * 5;
        let step: i128 = if scaled >= 0 {
            scaled / (RATIO_ONE as i128)
        } else {
            0 - (0 - scaled) / (RATIO_ONE as i128)
        };
        if step < -0x8000 {
            -0x8000
        } else if step > 0x7FFF {
            0x7FFF
        } else {
            step as i16
        }
    }

    /// The place reached from `place` by taking `step` off, both read as
    /// 16-bit signed numbers that wrap; the distance of the result from zero.
    pub fn step_from(place: u16, step: i16) -> (moved: u16)
        ensures
            moved == magnitude(reinterpreted(wrapped(reinterpreted(place as int) - step))),
    {
        let difference: i32 = Self::cast_signed(place) as i32 - step as i32;
        let wrapped_difference: i32 = if difference < -0x8000 {
            difference + 0x1_0000
        } else if difference > 0x7FFF {
            difference - 0x1_0000
        } else {
            difference
        };
        if wrapped_difference < 0 {
            (0 - wrapped_difference) as u16
        } else {
            wrapped_difference as u16
        }
    }
}

impl Default for ApplicationState {
    /// The state the game starts in.
    fn default() -> (state: Self)
        ensures
            state == (ApplicationState {
                x_offset: 0,
                y_offset: 0,
                sound: initial_tone(),
                player_x: 0,
                player_y: 0,
                width: 0,
                height: 0,
                jump_time: 0,
            }),
    {
        Self::new()
    }
}

} // verus!
