//! The firmware-update applier: what to do with an announced image and with
//! each chunk of it. Writing to flash and checking the image are the
//! caller's work; the applier is told how each of them went.

use vstd::prelude::*;

verus! {

/// The state of an update. While the device is not in update mode the
/// fields are those of the last update, and mean nothing.
#[derive(Debug, Clone, Copy, PartialEq, Eq, Structural)]
pub struct OtaApplier {
    /// The update was given up.
    pub failed: bool,
    /// The size of the image, as announced.
    pub image_size: u32,
    /// The checksum of the image, as announced.
    pub checksum: u32,
    /// The bytes written so far.
    pub written: u64,
    /// The progress at which the indicator was last pulsed; 0 at the start
    /// of an update.
    pub last_notified: u8,
}

/// What to tell the flash about an image that is about to arrive.
#[derive(Debug, Clone, Copy, PartialEq, Eq, Structural)]
pub struct FlashBegin {
    pub image_size: u32,
    pub checksum: u32,
}

/// What follows a chunk.
#[derive(Debug, Clone, Copy, PartialEq, Eq, Structural)]
pub enum ChunkStep {
    /// No update is under way: the chunk means nothing.
    Ignored,
    /// The flash refused the chunk: the update is given up, and this is to
    /// be logged.
    WriteFailed,
    /// The image is not complete: ask for the next chunk.
    Continue { pulse: bool },
    /// The image is complete: have it checked against its checksum.
    Complete { pulse: bool },
}

/// What follows the check of a complete image.
#[derive(Debug, Clone, Copy, PartialEq, Eq, Structural)]
pub enum VerifyStep {
    /// No update is under way.
    Ignored,
    /// The image is good: restart into it.
    Restart,
    /// The image is bad: the update is given up, the device stays on its
    /// firmware, and this is to be logged.
    VerifyFailed,
}

/// The progress of an update in percent: 100 once the image is complete,
/// else the written share of the image, rounded down.
pub open spec fn progress(written: u64, image_size: u32) -> u8 {
    if written >= image_size {
        100
    } else {
        (written * 100 / (image_size as int)) as u8
    }
}

/// Whether the progress has reached or passed a multiple of ten since the
/// indicator was last pulsed, or since the start of the update.
pub open spec fn crossed(last_notified: u8, now: u8) -> bool {
    now / 10 > last_notified / 10
}

/// The bytes written after a chunk of `len` bytes, held at the largest
/// 64-bit number.
pub open spec fn written_after(written: u64, len: usize) -> u64 {
    if written + len > u64::MAX {
        u64::MAX
    } else {
        (written + len) as u64
    }
}

/// The applier and the step after a chunk of `len` bytes went to the flash,
/// in update mode.
pub open spec fn chunk_step(applier: OtaApplier, len: usize, ok: bool) -> (OtaApplier, ChunkStep) {
    if applier.failed {
        (applier, ChunkStep::Ignored)
    } else if !ok {
        (OtaApplier { failed: true, ..applier }, ChunkStep::WriteFailed)
    } else {
        let written = written_after(applier.written, len);
        let now = progress(written, applier.image_size);
        let pulse = crossed(applier.last_notified, now);
        let next = OtaApplier {
            written,
            last_notified: if pulse {
                now
            } else {
                applier.last_notified
            },
            ..applier
        };
        if written >= applier.image_size {
            (next, ChunkStep::Complete { pulse })
        } else {
            (next, ChunkStep::Continue { pulse })
        }
    }
}

/// The applier and the step after the check of the image, in update mode.
pub open spec fn verify_step(applier: OtaApplier, ok: bool) -> (OtaApplier, VerifyStep) {
    if applier.failed {
        (applier, VerifyStep::Ignored)
    } else if ok {
        (applier, VerifyStep::Restart)
    } else {
        (OtaApplier { failed: true, ..applier }, VerifyStep::VerifyFailed)
    }
}

/// The applier after a row of chunks that the flash took.
pub open spec fn after_chunks(applier: OtaApplier, lens: Seq<usize>) -> OtaApplier
    decreases lens.len(),
{
    if lens.len() == 0 {
        applier
    } else {
        chunk_step(after_chunks(applier, lens.drop_last()), lens.last(), true).0
    }
}

/// The sum of a row of chunk sizes.
pub open spec fn total(lens: Seq<usize>) -> int
    decreases lens.len(),
{
    if lens.len() == 0 {
        0
    } else {
        total(lens.drop_last()) + lens.last()
    }
}

impl OtaApplier {
    /// An applier that has seen no update.
    pub fn new() -> (applier: Self)
        ensures
            applier == (OtaApplier {
                failed: false,
                image_size: 0,
                checksum: 0,
                written: 0,
                last_notified: 0,
            }),
    {
        OtaApplier { failed: false, image_size: 0, checksum: 0, written: 0, last_notified: 0 }
    }

    /// An applier at the start of an update.
    pub open spec fn started(image_size: u32, checksum: u32) -> OtaApplier {
        OtaApplier { failed: false, image_size, checksum, written: 0, last_notified: 0 }
    }

    /// Decides on an announced image. An image for another firmware is
    /// passed over: the result is `None`, and nothing is to be written. An
    /// image for this firmware is to be declared to the flash with its size
    /// and checksum.
    pub fn announced(
        own_firmware: &str,
        target_firmware_name: &String,
        image_size: u32,
        checksum: u32,
    ) -> (begin: Option<FlashBegin>)
        ensures
            begin == (if target_firmware_name@ == own_firmware@ {
                Some(FlashBegin { image_size, checksum })
            } else {
                None
            }),
    {
        let own: String = own_firmware.to_owned();
        if *target_firmware_name == own {
            Some(FlashBegin { image_size, checksum })
        } else {
            None
        }
    }

    /// Takes note of how declaring the image to the flash went. Where it
    /// went well the update starts, and the result is `true`: the caller
    /// enters update mode, pulses the indicator and asks for the first
    /// chunk. Where it did not, nothing changes and the result is `false`.
    pub fn begun(&mut self, begin: FlashBegin, ok: bool) -> (started: bool)
        ensures
            started == ok,
            *final(self) == (if ok {
                OtaApplier::started(begin.image_size, begin.checksum)
            } else {
                *old(self)
            }),
    {
        if ok {
            self.failed = false;
            self.image_size = begin.image_size;
            self.checksum = begin.checksum;
            self.written = 0;
            self.last_notified = 0;
        }
        ok
    }

    /// Whether a binary frame is a chunk to write: only in update mode, and
    /// only while the update has not been given up.
    pub fn wants_chunk(&self, update_mode: bool) -> (wanted: bool)
        ensures
            wanted == (update_mode && !self.failed),
    {
        update_mode && !self.failed
    }

    /// The progress of the update in percent.
    pub fn percent(&self) -> (percent: u8)
        ensures
            percent == progress(self.written, self.image_size),
    {
        if self.written >= self.image_size as u64 {
            100
        } else {
            let ghost written = self.written as int;
            let ghost size = self.image_size as int;
            assert(0 <= written * 100 / size < 100) by (nonlinear_arith)
                requires
                    0 <= written < size,
            ;
            assert(written * 100 <= u128::MAX) by (nonlinear_arith)
                requires
                    0 <= written <= u64::MAX,
            ;
            let share: u128 = self.written as u128 * 100 / (self.image_size as u128);
            share as u8
        }
    }

    /// Takes note of how writing a chunk of `len` bytes went, and says what
    /// follows. Outside update mode the chunk means nothing.
    pub fn chunk_written(&mut self, update_mode: bool, len: usize, ok: bool) -> (step: ChunkStep)
        ensures
            (*final(self), step) == (if update_mode {
                chunk_step(*old(self), len, ok)
            } else {
                (*old(self), ChunkStep::Ignored)
            }),
    {
        if !update_mode || self.failed {
            return ChunkStep::Ignored;
        }
        if !ok {
            self.failed = true;
            return ChunkStep::WriteFailed;
        }
        self.written = self.written.saturating_add(len as u64);
        let now = self.percent();
        let pulse = now / 10 > self.last_notified / 10;
        if pulse {
            self.last_notified = now;
        }
        if self.written >= self.image_size as u64 {
            ChunkStep::Complete { pulse }
        } else {
            ChunkStep::Continue { pulse }
        }
    }

    /// Takes note of how the check of the complete image went, and says
    /// what follows. Outside update mode the check means nothing.
    pub fn verified(&mut self, update_mode: bool, ok: bool) -> (step: VerifyStep)
        ensures
            (*final(self), step) == (if update_mode {
                verify_step(*old(self), ok)
            } else {
                (*old(self), VerifyStep::Ignored)
            }),
    {
        if !update_mode || self.failed {
            return VerifyStep::Ignored;
        }
        if ok {
            VerifyStep::Restart
        } else {
            self.failed = true;
            VerifyStep::VerifyFailed
        }
    }
}

/// After chunks that the flash took, the applier has counted their bytes.
pub proof fn lemma_written_is_total(applier: OtaApplier, lens: Seq<usize>)
    requires
        !applier.failed,
        applier.written + total(lens) <= u64::MAX,
    ensures
        after_chunks(applier, lens) == (OtaApplier {
            written: (applier.written + total(lens)) as u64,
            last_notified: after_chunks(applier, lens).last_notified,
            ..applier
        }),
        total(lens) >= 0,
    decreases lens.len(),
{
    if lens.len() > 0 {
        lemma_total_grows(lens.drop_last());
        lemma_written_is_total(applier, lens.drop_last());
    }
}

/// A sum of sizes is not negative.
pub proof fn lemma_total_grows(lens: Seq<usize>)
    ensures
        total(lens) >= 0,
    decreases lens.len(),
{
    if lens.len() > 0 {
        lemma_total_grows(lens.drop_last());
    }
}

/// An update whose chunks add up to the announced size ends in a check of
/// the image: the chunk that completes the image is followed by the check,
/// a good image by a restart, and a bad image by no restart but a failure
/// to log.
pub proof fn lemma_complete_image_is_checked(image_size: u32, checksum: u32, lens: Seq<usize>)
    requires
        lens.len() > 0,
        total(lens) == image_size,
    ensures
        ({
            let before = after_chunks(OtaApplier::started(image_size, checksum), lens.drop_last());
            let (after, step) = chunk_step(before, lens.last(), true);
            &&& step is Complete
            &&& verify_step(after, true).1 == VerifyStep::Restart
            &&& verify_step(after, false).1 == VerifyStep::VerifyFailed
            &&& verify_step(after, false).0.failed
        }),
{
    let start = OtaApplier::started(image_size, checksum);
    lemma_total_grows(lens.drop_last());
    lemma_written_is_total(start, lens.drop_last());
}

/// While the chunks add up to less than the announced size, each chunk is
/// followed by the request for the next one.
pub proof fn lemma_incomplete_image_continues(image_size: u32, checksum: u32, lens: Seq<usize>)
    requires
        lens.len() > 0,
        total(lens) < image_size,
    ensures
        chunk_step(
            after_chunks(OtaApplier::started(image_size, checksum), lens.drop_last()),
            lens.last(),
            true,
        ).1 is Continue,
{
    let start = OtaApplier::started(image_size, checksum);
    lemma_total_grows(lens.drop_last());
    lemma_written_is_total(start, lens.drop_last());
}

} // verus!
