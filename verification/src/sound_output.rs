//! How much sound to hand to a circular device buffer in each frame.
//!
//! The device plays from its play cursor and may already have fetched what
//! lies before its write cursor. The game writes from where it stopped last
//! frame up to a target that lies one frame of sound past the point where
//! the frame is expected to end, or past the write cursor and a safety
//! margin where that point has been overtaken already.

use vstd::prelude::*;

verus! {

/// Where to write in the device buffer, and how much.
#[derive(Debug, Clone, Copy, PartialEq, Eq, Structural)]
pub struct SoundWrite {
    /// The byte of the device buffer at which writing starts.
    pub write_offset: u32,
    /// The number of bytes to write, going round the end of the buffer.
    pub bytes_to_write: u32,
    /// The byte of the device buffer at which writing stops.
    pub target_cursor: u32,
    /// The number of whole samples in the bytes to write.
    pub sample_count: u32,
}

/// The bytes of sound played in one frame, for a game that updates once in
/// two refreshes of the monitor.
pub open spec fn frame_bytes(bytes_per_second: int, monitor_refresh_hertz: int) -> int {
    bytes_per_second * 2 / monitor_refresh_hertz
}

/// The part of a frame's bytes that is still to be played when
/// `elapsed_micros` of a frame of `target_micros` have passed; nothing once
/// the frame has run over.
pub open spec fn remaining_of(elapsed_micros: int, target_micros: int, bytes_per_frame: int) -> int {
    if target_micros <= elapsed_micros {
        0
    } else {
        (target_micros - elapsed_micros) * bytes_per_frame / target_micros
    }
}

/// The first byte that is safe to write: the write cursor and the safety
/// margin, counted from the start of the turn of the buffer that the play
/// cursor is in.
pub open spec fn safe_write_cursor_of(
    play_cursor: int,
    write_cursor: int,
    safety_bytes: int,
    buffer_length: int,
) -> int {
    write_cursor + safety_bytes + if write_cursor < play_cursor {
        buffer_length
    } else {
        0
    }
}

/// Whether the safe write cursor has reached the point where the frame is
/// expected to end.
pub open spec fn audio_is_latent(
    play_cursor: int,
    write_cursor: int,
    safety_bytes: int,
    remaining_bytes: int,
    buffer_length: int,
) -> bool {
    safe_write_cursor_of(play_cursor, write_cursor, safety_bytes, buffer_length) >= play_cursor
        + remaining_bytes
}

/// The byte up to which the buffer is to be filled, before it is brought
/// back into the buffer.
pub open spec fn unwrapped_target(
    play_cursor: int,
    write_cursor: int,
    safety_bytes: int,
    bytes_per_frame: int,
    remaining_bytes: int,
    buffer_length: int,
) -> int {
    if audio_is_latent(play_cursor, write_cursor, safety_bytes, remaining_bytes, buffer_length) {
        write_cursor + safety_bytes + bytes_per_frame
    } else {
        play_cursor + remaining_bytes + bytes_per_frame
    }
}

/// The byte of the buffer up to which it is to be filled.
pub open spec fn target_of(
    play_cursor: int,
    write_cursor: int,
    safety_bytes: int,
    bytes_per_frame: int,
    remaining_bytes: int,
    buffer_length: int,
) -> int {
    unwrapped_target(
        play_cursor,
        write_cursor,
        safety_bytes,
        bytes_per_frame,
        remaining_bytes,
        buffer_length,
    ) % buffer_length
}

/// The byte of the buffer at which the sample of the given number starts.
pub open spec fn offset_of_sample(sound_index: int, bytes_per_sample: int, buffer_length: int) -> int {
    (sound_index * bytes_per_sample) % buffer_length
}

/// The bytes from `write_offset` forward to `target_cursor`, going round the
/// end of the buffer.
pub open spec fn distance(write_offset: int, target_cursor: int, buffer_length: int) -> int {
    (target_cursor - write_offset) % buffer_length
}

/// Whichever way the target is chosen, it lies at least one frame of sound
/// past the write cursor and the safety margin: what is written in this
/// frame is not what the device is about to play.
pub proof fn lemma_target_keeps_the_safety_margin(
    play_cursor: u32,
    write_cursor: u32,
    safety_bytes: u32,
    bytes_per_frame: u32,
    remaining_bytes: u32,
    buffer_length: u32,
)
    ensures
        unwrapped_target(
            play_cursor as int,
            write_cursor as int,
            safety_bytes as int,
            bytes_per_frame as int,
            remaining_bytes as int,
            buffer_length as int,
        ) >= write_cursor + safety_bytes + bytes_per_frame,
{
}

/// The bytes to write, counted on from the write offset and round the end of
/// the buffer, end at the target cursor, and they are fewer than the buffer
/// holds.
pub proof fn lemma_write_ends_at_the_target(
    write_offset: u32,
    target_cursor: u32,
    buffer_length: u32,
)
    requires
        write_offset < buffer_length,
        target_cursor < buffer_length,
    ensures
        0 <= distance(write_offset as int, target_cursor as int, buffer_length as int)
            < buffer_length,
        (write_offset + distance(
            write_offset as int,
            target_cursor as int,
            buffer_length as int,
        )) % (buffer_length as int) == target_cursor,
{
    let length = buffer_length as int;
    let gap = target_cursor - write_offset;
    if write_offset > target_cursor {
        vstd::arithmetic::div_mod::lemma_fundamental_div_mod_converse(
            gap,
            length,
            -1,
            length + gap,
        );
        vstd::arithmetic::div_mod::lemma_fundamental_div_mod_converse(
            write_offset + (length + gap),
            length,
            1,
            target_cursor as int,
        );
    } else {
        vstd::arithmetic::div_mod::lemma_small_mod(gap as nat, length as nat);
        vstd::arithmetic::div_mod::lemma_small_mod(target_cursor as nat, length as nat);
    }
}

/// The product of two numbers that fit is no larger than the product of the
/// limits.
pub proof fn lemma_product_bound(a: int, b: int, a_max: int, b_max: int)
    requires
        0 <= a <= a_max,
        0 <= b <= b_max,
    ensures
        0 <= a * b <= a_max * b_max,
{
    assert(0 <= a * b <= a_max * b_max) by (nonlinear_arith)
        requires
            0 <= a <= a_max,
            0 <= b <= b_max,
    ;
}

/// The bytes of sound in half a frame: the margin kept between the write
/// cursor of the device and what the game writes.
pub fn calculate_sound_safety_bytes(
    samples_per_second: u32,
    bytes_per_sample: u32,
    monitor_refresh_hertz: u32,
) -> (safety_bytes: u32)
    requires
        monitor_refresh_hertz > 0,
        frame_bytes(samples_per_second * bytes_per_sample, monitor_refresh_hertz as int) / 2
            <= u32::MAX,
    ensures
        safety_bytes == frame_bytes(
            samples_per_second * bytes_per_sample,
            monitor_refresh_hertz as int,
        ) / 2,
{
    proof {
        lemma_product_bound(
            samples_per_second as int,
            bytes_per_sample as int,
            u32::MAX as int,
            u32::MAX as int,
        );
    }
    let sound_bytes_per_second: u128 = samples_per_second as u128 * bytes_per_sample as u128;
    let sound_bytes_per_game_hertz: u128 = sound_bytes_per_second * 2
        / monitor_refresh_hertz as u128;
    let safety_bytes: u128 = sound_bytes_per_game_hertz / 2;
    safety_bytes as u32
}

/// The bytes of sound played in one frame.
pub fn calculate_bytes_per_frame(
    samples_per_second: u32,
    bytes_per_sample: u32,
    monitor_refresh_hertz: u32,
) -> (bytes_per_frame: u32)
    requires
        monitor_refresh_hertz > 0,
        frame_bytes(samples_per_second * bytes_per_sample, monitor_refresh_hertz as int)
            <= u32::MAX,
    ensures
        bytes_per_frame == frame_bytes(
            samples_per_second * bytes_per_sample,
            monitor_refresh_hertz as int,
        ),
{
    proof {
        lemma_product_bound(
            samples_per_second as int,
            bytes_per_sample as int,
            u32::MAX as int,
            u32::MAX as int,
        );
    }
    let sound_bytes_per_second: u128 = samples_per_second as u128 * bytes_per_sample as u128;
    (sound_bytes_per_second * 2 / monitor_refresh_hertz as u128) as u32
}

/// The bytes of this frame that are still to be played.
pub fn calculate_remaining_bytes(
    elapsed_micros: u64,
    target_micros: u64,
    bytes_per_frame: u32,
) -> (remaining_bytes: u32)
    ensures
        remaining_bytes == remaining_of(
            elapsed_micros as int,
            target_micros as int,
            bytes_per_frame as int,
        ),
        remaining_bytes <= bytes_per_frame,
{
    if target_micros <= elapsed_micros {
        return 0;
    }
    let remaining_micros: u64 = target_micros - elapsed_micros;
    proof {
        lemma_product_bound(
            remaining_micros as int,
            bytes_per_frame as int,
            u64::MAX as int,
            u32::MAX as int,
        );
    }
    let scaled: u128 = remaining_micros as u128 * bytes_per_frame as u128;
    proof {
        assert(remaining_micros * bytes_per_frame <= target_micros * bytes_per_frame)
            by (nonlinear_arith)
            requires
                remaining_micros <= target_micros,
                bytes_per_frame >= 0,
        ;
        vstd::arithmetic::div_mod::lemma_div_is_ordered(
            remaining_micros * bytes_per_frame,
            target_micros * bytes_per_frame,
            target_micros as int,
        );
        vstd::arithmetic::div_mod::lemma_div_multiples_vanish(
            bytes_per_frame as int,
            target_micros as int,
        );
        vstd::arithmetic::mul::lemma_mul_is_commutative(
            bytes_per_frame as int,
            target_micros as int,
        );
    }
    (scaled / target_micros as u128) as u32
}

/// The byte of the buffer up to which it is to be filled in this frame.
///
/// Where the write cursor and the safety margin have reached the point at
/// which the frame is expected to end, the target lies one frame past them;
/// else it lies one frame past that point.
pub fn calculate_target_cursor(
    play_cursor: u32,
    write_cursor: u32,
    safety_bytes: u32,
    bytes_per_frame: u32,
    remaining_bytes: u32,
    buffer_length: u32,
) -> (target_cursor: u32)
    requires
        buffer_length > 0,
    ensures
        target_cursor == target_of(
            play_cursor as int,
            write_cursor as int,
            safety_bytes as int,
            bytes_per_frame as int,
            remaining_bytes as int,
            buffer_length as int,
        ),
        target_cursor < buffer_length,
{
    let safe_write_cursor: u64 = write_cursor as u64 + safety_bytes as u64 + if write_cursor
        < play_cursor {
        buffer_length as u64
    } else {
        0
    };
    let expected_frame_boundary_bytes: u64 = play_cursor as u64 + remaining_bytes as u64;
    let audio_is_latent = safe_write_cursor >= expected_frame_boundary_bytes;
    let target_cursor: u64 = if audio_is_latent {
        write_cursor as u64 + safety_bytes as u64 + bytes_per_frame as u64
    } else {
        expected_frame_boundary_bytes + bytes_per_frame as u64
    };
    (target_cursor % buffer_length as u64) as u32
}

/// The byte of the buffer at which the sample of the given number starts.
pub fn calculate_write_offset(sound_index: u32, bytes_per_sample: u32, buffer_length: u32) -> (offset:
    u32)
    requires
        buffer_length > 0,
    ensures
        offset == offset_of_sample(
            sound_index as int,
            bytes_per_sample as int,
            buffer_length as int,
        ),
        offset < buffer_length,
{
    proof {
        lemma_product_bound(
            sound_index as int,
            bytes_per_sample as int,
            u32::MAX as int,
            u32::MAX as int,
        );
    }
    ((sound_index as u64 * bytes_per_sample as u64) % buffer_length as u64) as u32
}

/// The bytes from `write_offset` forward to `target_cursor`, going round the
/// end of the buffer: never negative, and zero where the two are equal.
pub fn calculate_bytes_to_write(write_offset: u32, target_cursor: u32, buffer_length: u32) -> (bytes:
    u32)
    requires
        write_offset < buffer_length,
        target_cursor < buffer_length,
    ensures
        bytes == distance(write_offset as int, target_cursor as int, buffer_length as int),
        bytes < buffer_length,
        (write_offset + bytes) % (buffer_length as int) == target_cursor,
{
    proof {
        let length = buffer_length as int;
        let gap = target_cursor - write_offset;
        lemma_write_ends_at_the_target(write_offset, target_cursor, buffer_length);
        if write_offset > target_cursor {
            vstd::arithmetic::div_mod::lemma_fundamental_div_mod_converse(
                gap,
                length,
                -1,
                length + gap,
            );
        } else {
            vstd::arithmetic::div_mod::lemma_small_mod(gap as nat, length as nat);
        }
    }
    if write_offset > target_cursor {
        (buffer_length - write_offset) + target_cursor
    } else if write_offset < target_cursor {
        target_cursor - write_offset
    } else {
        0
    }
}

/// The write that keeps the device fed for this frame, or `None` where there
/// is nothing to write.
pub open spec fn planned(
    play_cursor: int,
    write_cursor: int,
    sound_index: int,
    bytes_per_sample: int,
    safety_bytes: int,
    bytes_per_frame: int,
    remaining_bytes: int,
    buffer_length: int,
) -> Option<SoundWrite> {
    let write_offset = offset_of_sample(sound_index, bytes_per_sample, buffer_length);
    let target_cursor = target_of(
        play_cursor,
        write_cursor,
        safety_bytes,
        bytes_per_frame,
        remaining_bytes,
        buffer_length,
    );
    let bytes_to_write = distance(write_offset, target_cursor, buffer_length);
    if bytes_to_write == 0 {
        None
    } else {
        Some(
            SoundWrite {
                write_offset: write_offset as u32,
                bytes_to_write: bytes_to_write as u32,
                target_cursor: target_cursor as u32,
                sample_count: (bytes_to_write / bytes_per_sample) as u32,
            },
        )
    }
}

/// Decides where to write in the device buffer and how much, from the
/// cursors of the device and the number of the next sample to write.
pub fn plan_sound_write(
    play_cursor: u32,
    write_cursor: u32,
    sound_index: u32,
    bytes_per_sample: u32,
    safety_bytes: u32,
    bytes_per_frame: u32,
    remaining_bytes: u32,
    buffer_length: u32,
) -> (write: Option<SoundWrite>)
    requires
        buffer_length > 0,
        bytes_per_sample > 0,
    ensures
        write == planned(
            play_cursor as int,
            write_cursor as int,
            sound_index as int,
            bytes_per_sample as int,
            safety_bytes as int,
            bytes_per_frame as int,
            remaining_bytes as int,
            buffer_length as int,
        ),
{
    let write_offset = calculate_write_offset(sound_index, bytes_per_sample, buffer_length);
    let target_cursor = calculate_target_cursor(
        play_cursor,
        write_cursor,
        safety_bytes,
        bytes_per_frame,
        remaining_bytes,
        buffer_length,
    );
    let bytes_to_write = calculate_bytes_to_write(write_offset, target_cursor, buffer_length);
    if bytes_to_write == 0 {
        return None;
    }
    let sample_count = bytes_to_write / bytes_per_sample;
    Some(SoundWrite { write_offset, bytes_to_write, target_cursor, sample_count })
}

/// The number of the sample that the write cursor of the device lies in: the
/// sample at which the game starts to write.
pub fn get_sample_index(write_cursor: u32, bytes_per_sample: u32) -> (sample_index: Option<u32>)
    ensures
        sample_index == (if bytes_per_sample == 0 {
            None
        } else {
            Some((write_cursor as int / bytes_per_sample as int) as u32)
        }),
{
    if bytes_per_sample == 0 {
        None
    } else {
        Some(write_cursor / bytes_per_sample)
    }
}

/// The number of the next sample to write after `sample_count` samples have
/// been written; numbers start again at zero after the highest.
pub fn advance_sound_index(sound_index: u32, sample_count: u32) -> (next: u32)
    ensures
        next == (sound_index + sample_count) % 0x1_0000_0000,
{
    sound_index.wrapping_add(sample_count)
}

/// The format of a buffer of uncompressed sound as the device wants it
/// described.
#[derive(Debug, Clone, Copy, PartialEq, Eq, Structural)]
pub struct BufferFormat {
    pub channel_count: u16,
    pub samples_per_second: u32,
    pub bits_per_sample: u16,
    /// The bytes that one sample of all channels takes.
    pub block_align: u16,
    /// The bytes that one second of sound takes.
    pub average_bytes_per_second: u32,
}

/// The format of a buffer of the given channels, rate and depth.
pub fn create_buffer_format(channel_count: u16, samples_per_second: u32, bits_per_sample: u16) -> (format:
    BufferFormat)
    requires
        channel_count * bits_per_sample <= u16::MAX,
        samples_per_second * (channel_count * bits_per_sample / 8) <= u32::MAX,
    ensures
        format == (BufferFormat {
            channel_count,
            samples_per_second,
            bits_per_sample,
            block_align: (channel_count * bits_per_sample / 8) as u16,
            average_bytes_per_second: (samples_per_second * (channel_count * bits_per_sample
                / 8)) as u32,
        }),
{
    proof {
        vstd::arithmetic::mul::lemma_mul_nonnegative(
            channel_count as int,
            bits_per_sample as int,
        );
    }
    let block_align = channel_count * bits_per_sample / 8;
    let average_bytes_per_second = samples_per_second * block_align as u32;
    BufferFormat {
        channel_count,
        samples_per_second,
        bits_per_sample,
        block_align,
        average_bytes_per_second,
    }
}

} // verus!
