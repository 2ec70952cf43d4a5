//! A verified model of the host's observable contract.
//!
//! The real host owns every pin, buffer and handle; this module gives the
//! same call surface as a plain state machine, so that chip-module code can
//! be exercised against a host whose behaviour is pinned down by contracts:
//! handles are issued fresh and never collide with [`NO_PIN`], at most one
//! watch is active per pin and a rejected registration changes nothing, and
//! buffer transfers report exactly how many bytes they moved, which may be
//! fewer than requested.

use crate::abi::{
    is_edge, is_pin_level, is_pin_mode, BufferId, PinId, HIGH, LOW, NO_PIN, OUTPUT_HIGH,
    OUTPUT_LOW,
};
use crate::records::WatchConfig;
use vstd::pervasive::VecAdditionalExecFns;
use vstd::prelude::*;

verus! {

/// The host-side state of one pin: its current mode, its digital level, and
/// the watch registered on it, if any.
#[derive(Clone, Copy, Debug)]
pub struct PinState {
    /// Current pin mode.
    pub mode: u32,
    /// Current digital level, [`LOW`] or [`HIGH`].
    pub level: u32,
    /// The one watch registered on this pin, if any.
    pub watch: Option<WatchConfig>,
}

impl PinState {
    /// A pin state the host could be in: mode and level are among the
    /// declared constants, and a registered watch has a valid edge selector.
    pub open spec fn wf(self) -> bool {
        &&& is_pin_mode(self.mode)
        &&& is_pin_level(self.level)
        &&& match self.watch {
            Some(w) => is_edge(w.edge),
            None => true,
        }
    }
}

/// The digital level a pin settles at when (re)configured with `mode`:
/// the two initializing output modes force a level, every other mode keeps
/// the previous one.
pub open spec fn spec_level_after_mode(previous: u32, mode: u32) -> u32 {
    if mode == OUTPUT_HIGH {
        HIGH
    } else if mode == OUTPUT_LOW {
        LOW
    } else {
        previous
    }
}

/// A mock host: pins issued in order, and one framebuffer of fixed
/// dimensions.
pub struct MockHost {
    /// State of every issued pin; the handle is the index.
    pub pins: Vec<PinState>,
    /// Contents of the single framebuffer.
    pub frame: Vec<u8>,
    /// Framebuffer width in pixels.
    pub frame_width: u32,
    /// Framebuffer height in pixels.
    pub frame_height: u32,
}

/// Number of bytes a buffer transfer moves: all `wanted` bytes when the
/// window starting at `offset` fits inside the buffer, the bytes up to the
/// buffer's end when it does not, and none when `offset` is past the end.
pub open spec fn spec_transfer_count(buffer_len: int, offset: int, wanted: int) -> int {
    if offset >= buffer_len {
        0
    } else if wanted <= buffer_len - offset {
        wanted
    } else {
        buffer_len - offset
    }
}

/// The relation between the host state before and after a watch
/// registration on `pin` that returned `accepted`: the call is accepted
/// exactly when the pin had no watch, an accepted call installs `config` and
/// changes nothing else, and a rejected call changes nothing at all.
pub open spec fn spec_watch_step(
    pre: MockHost,
    post: MockHost,
    pin: int,
    config: WatchConfig,
    accepted: bool,
) -> bool {
    &&& accepted <==> pre.pins@[pin].watch is None
    &&& (accepted ==> post.pins@ == pre.pins@.update(
        pin,
        PinState { watch: Some(config), ..pre.pins@[pin] },
    ))
    &&& (!accepted ==> post.pins@ == pre.pins@)
    &&& post.frame@ == pre.frame@
    &&& post.frame_width == pre.frame_width
    &&& post.frame_height == pre.frame_height
}

impl MockHost {
    /// A state the host could be in: few enough pins that every handle is a
    /// non-negative `i32`, every pin well-formed, and the frame of exactly
    /// the advertised dimensions.
    pub open spec fn wf(self) -> bool {
        &&& self.pins@.len() <= 0x7fff_ffff
        &&& forall|i: int|
            0 <= i < self.pins@.len() ==> (#[trigger] self.pins@[i]).wf()
        &&& self.frame@.len() == self.frame_width * self.frame_height
        &&& self.frame@.len() <= 0xffff_ffff
    }

    /// Creates a host with no pins and a zeroed framebuffer of the given
    /// dimensions.
    pub fn new(frame_width: u32, frame_height: u32) -> (host: MockHost)
        requires
            frame_width * frame_height <= 0xffff_ffff,
        ensures
            host.wf(),
            host.pins@.len() == 0,
            host.frame@ == Seq::<u8>::new((frame_width * frame_height) as nat, |i: int| 0u8),
            host.frame_width == frame_width,
            host.frame_height == frame_height,
    {
        let len: usize = (frame_width as usize) * (frame_height as usize);
        let frame: Vec<u8> = vec![0u8; len];
        proof {
            assert(frame@ =~= Seq::<u8>::new((frame_width * frame_height) as nat, |i: int| 0u8));
        }
        MockHost { pins: Vec::new(), frame, frame_width, frame_height }
    }

    /// Issues a fresh pin handle configured with `mode`. Handles are the
    /// number of pins issued so far, so they are non-negative, pairwise
    /// distinct, and never equal to [`NO_PIN`].
    pub fn pin_init(&mut self, mode: u32) -> (pin: PinId)
        requires
            old(self).wf(),
            is_pin_mode(mode),
            old(self).pins@.len() < 0x7fff_ffff,
        ensures
            final(self).wf(),
            pin as int == old(self).pins@.len(),
            pin >= 0,
            pin != NO_PIN,
            final(self).pins@ == old(self).pins@.push(
                PinState { mode, level: spec_level_after_mode(LOW, mode), watch: None },
            ),
            final(self).frame@ == old(self).frame@,
            final(self).frame_width == old(self).frame_width,
            final(self).frame_height == old(self).frame_height,
    {
        let level: u32 = if mode == OUTPUT_HIGH {
            HIGH
        } else {
            LOW
        };
        let pin: usize = self.pins.len();
        self.pins.push(PinState { mode, level, watch: None });
        pin as i32
    }

    /// Reconfigures an issued pin. The initializing output modes force the
    /// pin's level; every other mode leaves the level as it was. The watch,
    /// the other pins and the frame are untouched.
    pub fn pin_mode(&mut self, pin: PinId, mode: u32)
        requires
            old(self).wf(),
            0 <= (pin as int) < old(self).pins@.len(),
            is_pin_mode(mode),
        ensures
            final(self).wf(),
            final(self).pins@ == old(self).pins@.update(
                pin as int,
                PinState {
                    mode,
                    level: spec_level_after_mode(old(self).pins@[pin as int].level, mode),
                    ..old(self).pins@[pin as int]
                },
            ),
            final(self).frame@ == old(self).frame@,
            final(self).frame_width == old(self).frame_width,
            final(self).frame_height == old(self).frame_height,
    {
        let previous: PinState = self.pins[pin as usize];
        let level: u32 = if mode == OUTPUT_HIGH {
            HIGH
        } else if mode == OUTPUT_LOW {
            LOW
        } else {
            previous.level
        };
        self.pins.set(pin as usize, PinState { mode, level, watch: previous.watch });
    }

    /// Reads the digital level of an issued pin: always [`LOW`] or
    /// [`HIGH`].
    pub fn pin_read(&self, pin: PinId) -> (level: u32)
        requires
            self.wf(),
            0 <= (pin as int) < self.pins@.len(),
        ensures
            level == self.pins@[pin as int].level,
            is_pin_level(level),
    {
        self.pins[pin as usize].level
    }

    /// Sets the digital level of an issued pin; everything else is
    /// untouched.
    pub fn pin_write(&mut self, pin: PinId, level: u32)
        requires
            old(self).wf(),
            0 <= (pin as int) < old(self).pins@.len(),
            is_pin_level(level),
        ensures
            final(self).wf(),
            final(self).pins@ == old(self).pins@.update(
                pin as int,
                PinState { level, ..old(self).pins@[pin as int] },
            ),
            final(self).frame@ == old(self).frame@,
            final(self).frame_width == old(self).frame_width,
            final(self).frame_height == old(self).frame_height,
    {
        let previous: PinState = self.pins[pin as usize];
        self.pins.set(pin as usize, PinState { mode: previous.mode, level, watch: previous.watch });
    }

    /// Registers a watch on an issued pin. At most one watch is active per
    /// pin: the call succeeds exactly when the pin has none, and a rejected
    /// call leaves every part of the state unchanged.
    pub fn pin_watch(&mut self, pin: PinId, config: &WatchConfig) -> (accepted: bool)
        requires
            old(self).wf(),
            0 <= (pin as int) < old(self).pins@.len(),
            is_edge(config.edge),
        ensures
            final(self).wf(),
            final(self).pins@.len() == old(self).pins@.len(),
            spec_watch_step(*old(self), *final(self), pin as int, *config, accepted),
    {
        let previous: PinState = self.pins[pin as usize];
        match previous.watch {
            Some(_) => false,
            None => {
                self.pins.set(
                    pin as usize,
                    PinState { mode: previous.mode, level: previous.level, watch: Some(*config) },
                );
                true
            },
        }
    }

    /// Removes the watch on an issued pin, if any; everything else is
    /// untouched. After this, a new watch registration succeeds again.
    pub fn pin_watch_stop(&mut self, pin: PinId)
        requires
            old(self).wf(),
            0 <= (pin as int) < old(self).pins@.len(),
        ensures
            final(self).wf(),
            final(self).pins@ == old(self).pins@.update(
                pin as int,
                PinState { watch: None, ..old(self).pins@[pin as int] },
            ),
            final(self).frame@ == old(self).frame@,
            final(self).frame_width == old(self).frame_width,
            final(self).frame_height == old(self).frame_height,
    {
        let previous: PinState = self.pins[pin as usize];
        self.pins.set(
            pin as usize,
            PinState { mode: previous.mode, level: previous.level, watch: None },
        );
    }

    /// The edge selector of the watch registered on an issued pin, if any.
    pub fn watch_edge(&self, pin: PinId) -> (edge: Option<u32>)
        requires
            self.wf(),
            0 <= (pin as int) < self.pins@.len(),
        ensures
            edge == match self.pins@[pin as int].watch {
                Some(w) => Some(w.edge),
                None => None::<u32>,
            },
    {
        match self.pins[pin as usize].watch {
            Some(w) => Some(w.edge),
            None => None,
        }
    }

    /// Hands out the framebuffer: its handle and its dimensions.
    pub fn framebuffer_init(&self) -> (r: (BufferId, u32, u32))
        ensures
            r.0 == 0,
            r.1 == self.frame_width,
            r.2 == self.frame_height,
    {
        (0, self.frame_width, self.frame_height)
    }

    /// Copies bytes out of the framebuffer, starting at `offset`, into the
    /// front of `data`; asks for `wanted` bytes and returns how many were
    /// moved, which is fewer when the window runs past the buffer's end and
    /// zero for an unknown buffer handle. Bytes of `data` beyond the count
    /// are untouched, as is the host state.
    pub fn buffer_read(&self, buffer: BufferId, offset: u32, data: &mut Vec<u8>, wanted: u32) -> (count: u32)
        requires
            self.wf(),
            wanted as int <= old(data)@.len(),
        ensures
            final(data)@.len() == old(data)@.len(),
            buffer == 0 ==> count as int == spec_transfer_count(
                self.frame@.len() as int,
                offset as int,
                wanted as int,
            ),
            buffer != 0 ==> count == 0,
            count <= wanted,
            forall|j: int|
                0 <= j < count as int ==> final(data)@[j] == self.frame@[offset as int + j],
            forall|j: int|
                count as int <= j < old(data)@.len() ==> final(data)@[j] == old(data)@[j],
    {
        if buffer != 0 {
            return 0;
        }
        let frame_len: usize = self.frame.len();
        let off: usize = offset as usize;
        let n: usize = if off >= frame_len {
            0
        } else if (wanted as usize) <= frame_len - off {
            wanted as usize
        } else {
            frame_len - off
        };
        let mut i: usize = 0;
        while i < n
            invariant
                i <= n,
                n as int == spec_transfer_count(
                    self.frame@.len() as int,
                    offset as int,
                    wanted as int,
                ),
                off == offset as int,
                n == 0 || off + n <= self.frame@.len(),
                frame_len == self.frame@.len(),
                n <= wanted,
                wanted as int <= old(data)@.len(),
                data@.len() == old(data)@.len(),
                forall|j: int| 0 <= j < i ==> data@[j] == self.frame@[off + j],
                forall|j: int| i <= j < old(data)@.len() ==> data@[j] == old(data)@[j],
            decreases n - i,
        {
            let byte: u8 = self.frame[off + i];
            data.set(i, byte);
            i = i + 1;
        }
        n as u32
    }

    /// Copies bytes from the front of `data` into the framebuffer, starting
    /// at `offset`; asks for `wanted` bytes and returns how many were moved,
    /// which is fewer when the window runs past the buffer's end and zero
    /// for an unknown buffer handle. Frame bytes outside the written window,
    /// the pins and the dimensions are untouched.
    pub fn buffer_write(&mut self, buffer: BufferId, offset: u32, data: &[u8], wanted: u32) -> (count: u32)
        requires
            old(self).wf(),
            wanted as int <= data@.len(),
        ensures
            final(self).wf(),
            final(self).pins@ == old(self).pins@,
            final(self).frame_width == old(self).frame_width,
            final(self).frame_height == old(self).frame_height,
            final(self).frame@.len() == old(self).frame@.len(),
            buffer == 0 ==> count as int == spec_transfer_count(
                old(self).frame@.len() as int,
                offset as int,
                wanted as int,
            ),
            buffer != 0 ==> count == 0,
            count <= wanted,
            forall|j: int|
                offset as int <= j < offset as int + count as int ==> final(self).frame@[j]
                    == data@[j - offset as int],
            forall|j: int|
                0 <= j < old(self).frame@.len() && !(offset as int <= j < offset as int
                    + count as int) ==> final(self).frame@[j] == old(self).frame@[j],
    {
        if buffer != 0 {
            return 0;
        }
        let frame_len: usize = self.frame.len();
        let off: usize = offset as usize;
        let n: usize = if off >= frame_len {
            0
        } else if (wanted as usize) <= frame_len - off {
            wanted as usize
        } else {
            frame_len - off
        };
        let mut i: usize = 0;
        while i < n
            invariant
                i <= n,
                n as int == spec_transfer_count(
                    old(self).frame@.len() as int,
                    offset as int,
                    wanted as int,
                ),
                off == offset as int,
                n == 0 || off + n <= self.frame@.len(),
                frame_len == self.frame@.len(),
                n <= wanted,
                wanted as int <= data@.len(),
                self.frame@.len() == old(self).frame@.len(),
                self.pins@ == old(self).pins@,
                self.frame_width == old(self).frame_width,
                self.frame_height == old(self).frame_height,
                forall|j: int| off <= j < off + i ==> self.frame@[j] == data@[j - off],
                forall|j: int|
                    0 <= j < old(self).frame@.len() && !(off <= j < off + i)
                        ==> self.frame@[j] == old(self).frame@[j],
            decreases n - i,
        {
            let byte: u8 = data[i];
            self.frame.set(off + i, byte);
            i = i + 1;
        }
        n as u32
    }
}

/// One watch per pin, as a law over consecutive registrations: when two
/// watches are registered on the same pin with no stop in between, the
/// first is accepted and the second is rejected without any state change.
pub proof fn lemma_watch_exclusive(
    h0: MockHost,
    h1: MockHost,
    h2: MockHost,
    pin: int,
    first: WatchConfig,
    second: WatchConfig,
    accepted_first: bool,
    accepted_second: bool,
)
    requires
        0 <= pin < h0.pins@.len(),
        h0.pins@[pin].watch is None,
        spec_watch_step(h0, h1, pin, first, accepted_first),
        spec_watch_step(h1, h2, pin, second, accepted_second),
    ensures
        accepted_first,
        !accepted_second,
        h2.pins@ == h1.pins@,
        h2.frame@ == h1.frame@,
        h2.frame_width == h1.frame_width,
        h2.frame_height == h1.frame_height,
{
}

/// Short counts are never silent: a transfer reports fewer bytes than
/// requested exactly when the requested window does not fit in the buffer,
/// and all requested bytes are reported moved when it does.
pub proof fn lemma_transfer_count_exposes_short_transfers(
    buffer_len: int,
    offset: int,
    wanted: int,
)
    requires
        0 <= buffer_len,
        0 <= offset,
        0 <= wanted,
    ensures
        0 <= spec_transfer_count(buffer_len, offset, wanted) <= wanted,
        offset + wanted <= buffer_len ==> spec_transfer_count(buffer_len, offset, wanted)
            == wanted,
        wanted > 0 && offset + wanted > buffer_len ==> spec_transfer_count(
            buffer_len,
            offset,
            wanted,
        ) < wanted,
{
}

} // verus!
