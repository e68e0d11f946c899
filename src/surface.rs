use vstd::prelude::*;

use crate::placement::{apply_stack_offset, stacked_margins_spec, stacks_from_bottom, Margins, Position};

verus! {

/// How often a live notification re-reads the ledger for its offset.
pub const POLL_INTERVAL_MS: u64 = 100;

/// The stages of a notification surface's life.
#[derive(Clone, Copy, Debug, PartialEq, Eq, Structural)]
pub enum Phase {
    Connecting,
    AwaitingInitialConfigure,
    Committed,
    Closing,
    Terminated,
}

/// What to do with the seat's pointer after a capabilities event.
#[derive(Clone, Copy, Debug, PartialEq, Eq, Structural)]
pub enum PointerAction {
    Bind,
    Keep,
    Release,
}

/// Sizes of the buffer that is attached once the surface is configured.
#[derive(Clone, Copy, Debug, PartialEq, Eq, Structural)]
pub struct BufferGeometry {
    pub width: i32,
    pub height: i32,
    pub scale: i32,
    pub pixel_width: i32,
    pub pixel_height: i32,
}

/// The per-instance view of the compositor session.
#[derive(Debug)]
pub struct SurfaceState {
    pub phase: Phase,
    pub configured: bool,
    pub closed: bool,
    pub width: i32,
    pub height: i32,
    pub scale: i32,
    /// Scale factor announced by each output, by output id; ids are unique.
    pub outputs: Vec<(u32, i32)>,
}

pub open spec fn max_i32(a: i32, b: i32) -> i32 {
    if a >= b {
        a
    } else {
        b
    }
}

pub open spec fn keys_unique(outputs: Seq<(u32, i32)>) -> bool {
    forall|i: int, j: int| 0 <= i < j < outputs.len() ==> outputs[i].0 != outputs[j].0
}

/// The scale factor recorded for an output, if any.
pub open spec fn output_scale(outputs: Seq<(u32, i32)>, id: u32) -> Option<i32> {
    if exists|i: int| 0 <= i < outputs.len() && outputs[i].0 == id {
        let i = choose|i: int| 0 <= i < outputs.len() && outputs[i].0 == id;
        Some(outputs[i].1)
    } else {
        None
    }
}

/// The buffer geometry after the initial configure: the configured size, or the
/// locally computed one where the compositor gave none; the configured scale, or
/// the compositor's where none was configured, never below 1.
pub open spec fn geometry_spec(
    width: i32,
    height: i32,
    fallback_width: i32,
    fallback_height: i32,
    configured_scale: i32,
    surface_scale: i32,
) -> (int, int, int) {
    let (w, h) = if width <= 0 || height <= 0 {
        (fallback_width, fallback_height)
    } else {
        (width, height)
    };
    let s = max_i32(if configured_scale <= 0 { surface_scale } else { configured_scale }, 1);
    (w as int, h as int, s as int)
}

impl SurfaceState {
    pub open spec fn wf(&self) -> bool {
        &&& self.scale >= 1
        &&& keys_unique(self.outputs@)
    }

    /// A session that has not reached the compositor yet, with the locally
    /// computed size and the configured scale (at least 1).
    pub fn new(width: i32, height: i32, configured_scale: i32) -> (r: SurfaceState)
        ensures
            r.wf(),
            r.phase == Phase::Connecting,
            !r.configured,
            !r.closed,
            r.width == width,
            r.height == height,
            r.scale == max_i32(configured_scale, 1),
            r.outputs@.len() == 0,
    {
        SurfaceState {
            phase: Phase::Connecting,
            configured: false,
            closed: false,
            width,
            height,
            scale: if configured_scale >= 1 { configured_scale } else { 1 },
            outputs: Vec::new(),
        }
    }

    /// The layer surface has been requested; its first configure is awaited.
    pub fn surface_requested(&mut self)
        requires
            old(self).phase == Phase::Connecting,
        ensures
            *final(self) == (SurfaceState { phase: Phase::AwaitingInitialConfigure, ..*old(self) }),
    {
        self.phase = Phase::AwaitingInitialConfigure;
    }

    /// A configure event. The result is the serial to acknowledge. A proposed
    /// size that is not positive (or does not fit an `i32`) keeps the local one.
    pub fn on_configure(&mut self, serial: u32, width: u32, height: u32) -> (ack: u32)
        requires
            old(self).wf(),
        ensures
            final(self).wf(),
            ack == serial,
            final(self).configured,
            final(self).width == if 0 < width <= i32::MAX {
                width as i32
            } else {
                old(self).width
            },
            final(self).height == if 0 < height <= i32::MAX {
                height as i32
            } else {
                old(self).height
            },
            final(self).closed == old(self).closed,
            final(self).phase == old(self).phase,
            final(self).scale == old(self).scale,
            final(self).outputs == old(self).outputs,
    {
        self.configured = true;
        if width > 0 && width <= 2147483647 {
            self.width = width as i32;
        }
        if height > 0 && height <= 2147483647 {
            self.height = height as i32;
        }
        serial
    }

    /// The compositor closed the surface, or the user pressed on it.
    pub fn on_closed(&mut self)
        ensures
            *final(self) == (SurfaceState { closed: true, ..*old(self) }),
    {
        self.closed = true;
    }

    /// A pointer button event: a press dismisses the notification.
    pub fn on_pointer_button(&mut self, pressed: bool)
        ensures
            *final(self) == (SurfaceState { closed: old(self).closed || pressed, ..*old(self) }),
    {
        if pressed {
            self.closed = true;
        }
    }

    /// An output announced its scale factor: it is recorded for that output and
    /// becomes the surface's scale (at least 1).
    pub fn on_output_scale(&mut self, output: u32, factor: i32)
        requires
            old(self).wf(),
        ensures
            final(self).wf(),
            final(self).scale == max_i32(factor, 1),
            output_scale(final(self).outputs@, output) == Some(factor),
            forall|o: u32| o != output ==> output_scale(final(self).outputs@, o) == output_scale(
                old(self).outputs@,
                o,
            ),
            final(self).phase == old(self).phase,
            final(self).configured == old(self).configured,
            final(self).closed == old(self).closed,
            final(self).width == old(self).width,
            final(self).height == old(self).height,
    {
        let ghost before = self.outputs@;
        let slot = find_output(&self.outputs, output);
        let (found, i) = match slot {
            Some(k) => (true, k),
            None => (false, 0),
        };
        if found {
            self.outputs.set(i, (output, factor));
            proof {
                let after = self.outputs@;
                assert(after == before.update(i as int, (output, factor)));
                assert(after[i as int].0 == output);
                assert forall|o: u32| o != output implies output_scale(after, o) == output_scale(
                    before,
                    o,
                ) by {
                    if exists|k: int| 0 <= k < before.len() && before[k].0 == o {
                        let k = choose|k: int| 0 <= k < before.len() && before[k].0 == o;
                        assert(after[k].0 == o);
                    }
                    if exists|k: int| 0 <= k < after.len() && after[k].0 == o {
                        let k = choose|k: int| 0 <= k < after.len() && after[k].0 == o;
                        assert(before[k].0 == o);
                    }
                }
            }
        } else {
            self.outputs.push((output, factor));
            proof {
                let after = self.outputs@;
                assert(after[before.len() as int].0 == output);
                assert forall|o: u32| o != output implies output_scale(after, o) == output_scale(
                    before,
                    o,
                ) by {
                    if exists|k: int| 0 <= k < before.len() && before[k].0 == o {
                        let k = choose|k: int| 0 <= k < before.len() && before[k].0 == o;
                        assert(after[k].0 == o);
                    }
                    if exists|k: int| 0 <= k < after.len() && after[k].0 == o {
                        let k = choose|k: int| 0 <= k < after.len() && after[k].0 == o;
                        assert(before[k].0 == o);
                    }
                }
            }
        }
        self.scale = if factor >= 1 { factor } else { 1 };
    }

    /// The surface entered an output: it takes that output's scale, if known.
    pub fn on_surface_enter(&mut self, output: u32)
        requires
            old(self).wf(),
        ensures
            final(self).wf(),
            final(self).scale == match output_scale(old(self).outputs@, output) {
                Some(f) => max_i32(f, 1),
                None => old(self).scale,
            },
            final(self).outputs == old(self).outputs,
            final(self).phase == old(self).phase,
            final(self).configured == old(self).configured,
            final(self).closed == old(self).closed,
            final(self).width == old(self).width,
            final(self).height == old(self).height,
    {
        match find_output_scale(&self.outputs, output) {
            Some(f) => {
                self.scale = if f >= 1 { f } else { 1 };
            },
            None => {},
        }
    }

    /// Settles the buffer geometry once the configure round trip is over, and
    /// marks the surface committed. `None` where the pixel size overflows.
    pub fn commit_geometry(
        &mut self,
        fallback_width: i32,
        fallback_height: i32,
        configured_scale: i32,
    ) -> (r: Option<BufferGeometry>)
        requires
            old(self).wf(),
        ensures
            final(self).wf(),
            ({
                let (w, h, s) = geometry_spec(
                    old(self).width,
                    old(self).height,
                    fallback_width,
                    fallback_height,
                    configured_scale,
                    old(self).scale,
                );
                &&& r is Some <==> (fits(w * s) && fits(h * s))
                &&& r is Some ==> {
                    &&& (r->0).width == w
                    &&& (r->0).height == h
                    &&& (r->0).scale == s
                    &&& (r->0).pixel_width == w * s
                    &&& (r->0).pixel_height == h * s
                    &&& final(self).width == w
                    &&& final(self).height == h
                    &&& final(self).scale == s
                    &&& final(self).phase == Phase::Committed
                }
                &&& r is None ==> *final(self) == *old(self)
            }),
    {
        let (w, h) = if self.width <= 0 || self.height <= 0 {
            (fallback_width, fallback_height)
        } else {
            (self.width, self.height)
        };
        let chosen = if configured_scale <= 0 {
            self.scale
        } else {
            configured_scale
        };
        let s: i32 = if chosen >= 1 { chosen } else { 1 };
        proof {
            lemma_product_fits_i64(w as int, s as int);
            lemma_product_fits_i64(h as int, s as int);
        }
        let pw = (w as i64) * (s as i64);
        let ph = (h as i64) * (s as i64);
        if pw < -2147483648 || pw > 2147483647 || ph < -2147483648 || ph > 2147483647 {
            return None;
        }
        self.width = w;
        self.height = h;
        self.scale = s;
        self.phase = Phase::Committed;
        Some(BufferGeometry { width: w, height: h, scale: s, pixel_width: pw as i32, pixel_height: ph as i32 })
    }

    /// Whether the dispatch loop goes on: the deadline is not reached, the surface
    /// is not closed and no shutdown was requested.
    pub fn keep_running(&self, before_deadline: bool, shutdown: bool) -> (r: bool)
        ensures
            r == (before_deadline && !self.closed && !shutdown),
    {
        before_deadline && !self.closed && !shutdown
    }

    /// The dispatch loop has ended; the lease is about to be released.
    pub fn begin_close(&mut self)
        ensures
            *final(self) == (SurfaceState { phase: Phase::Closing, ..*old(self) }),
    {
        self.phase = Phase::Closing;
    }

    /// The lease is released and the session is over.
    pub fn finish(&mut self)
        requires
            old(self).phase == Phase::Closing,
        ensures
            *final(self) == (SurfaceState { phase: Phase::Terminated, ..*old(self) }),
    {
        self.phase = Phase::Terminated;
    }
}

fn find_output(outputs: &Vec<(u32, i32)>, id: u32) -> (r: Option<usize>)
    ensures
        r is Some ==> r->0 < outputs@.len() && outputs@[r->0 as int].0 == id,
        r is None ==> forall|j: int| 0 <= j < outputs@.len() ==> outputs@[j].0 != id,
{
    let mut i: usize = 0;
    while i < outputs.len()
        invariant
            0 <= i <= outputs.len(),
            forall|j: int| 0 <= j < i ==> outputs@[j].0 != id,
        decreases outputs.len() - i,
    {
        if outputs[i].0 == id {
            return Some(i);
        }
        i += 1;
    }
    None
}

proof fn lemma_output_scale_at(outputs: Seq<(u32, i32)>, i: int)
    requires
        keys_unique(outputs),
        0 <= i < outputs.len(),
    ensures
        output_scale(outputs, outputs[i].0) == Some(outputs[i].1),
{
    let id = outputs[i].0;
    assert(0 <= i < outputs.len() && outputs[i].0 == id);
    let k = choose|k: int| 0 <= k < outputs.len() && outputs[k].0 == id;
    if k < i {
        assert(outputs[k].0 != outputs[i].0);
    } else if i < k {
        assert(outputs[i].0 != outputs[k].0);
    }
}

fn find_output_scale(outputs: &Vec<(u32, i32)>, id: u32) -> (r: Option<i32>)
    requires
        keys_unique(outputs@),
    ensures
        r == output_scale(outputs@, id),
{
    match find_output(outputs, id) {
        Some(i) => {
            proof {
                lemma_output_scale_at(outputs@, i as int);
            }
            Some(outputs[i].1)
        },
        None => None,
    }
}

proof fn lemma_product_fits_i64(a: int, b: int)
    requires
        i32::MIN <= a <= i32::MAX,
        i32::MIN <= b <= i32::MAX,
    ensures
        i64::MIN <= a * b <= i64::MAX,
{
    assert(-0x8000_0000_0000_0000 <= a * b <= 0x7fff_ffff_ffff_ffff) by (nonlinear_arith)
        requires
            -0x8000_0000 <= a <= 0x7fff_ffff,
            -0x8000_0000 <= b <= 0x7fff_ffff,
    ;
}

pub open spec fn fits(v: int) -> bool {
    i32::MIN <= v <= i32::MAX
}

/// What a seat capabilities event asks of the pointer: bind one where the seat
/// has a pointer and none is bound, drop it where the seat has none.
pub fn pointer_action(has_pointer: bool, pointer_bound: bool) -> (r: PointerAction)
    ensures
        r == if !has_pointer {
            PointerAction::Release
        } else if pointer_bound {
            PointerAction::Keep
        } else {
            PointerAction::Bind
        },
{
    if !has_pointer {
        PointerAction::Release
    } else if pointer_bound {
        PointerAction::Keep
    } else {
        PointerAction::Bind
    }
}

/// The size of a notification: at least the configured width, and tall enough
/// for its padding and border with one pixel of content.
pub fn notification_size(
    configured_width: i32,
    padding: i32,
    border_size: i32,
    measured_width: i32,
    measured_height: i32,
) -> (r: Option<(i32, i32)>)
    ensures
        ({
            let least = 2 * padding + 2 * border_size + 1;
            &&& r is Some <==> fits(least)
            &&& r is Some ==> (r->0).0 == max_i32(configured_width, measured_width)
                && (r->0).1 as int == if measured_height >= least {
                measured_height as int
            } else {
                least
            }
        }),
{
    let least = 2 * (padding as i64) + 2 * (border_size as i64) + 1;
    if least < -2147483648 || least > 2147483647 {
        return None;
    }
    let w = if configured_width >= measured_width { configured_width } else { measured_width };
    let h = if (measured_height as i64) >= least { measured_height } else { least as i32 };
    Some((w, h))
}

/// Whether the ledger is due for another look, `elapsed_ms` after the last one.
pub fn poll_due(elapsed_ms: u64) -> (r: bool)
    ensures
        r == (elapsed_ms >= POLL_INTERVAL_MS),
{
    elapsed_ms >= POLL_INTERVAL_MS
}

/// The margins at stacking offset `offset`, or `None` where they overflow.
pub fn offset_margins(base: Margins, position: Position, offset: i32) -> (r: Option<Margins>)
    ensures
        ({
            let moved = if stacks_from_bottom(position) {
                base.bottom + offset
            } else {
                base.top + offset
            };
            &&& r is Some <==> fits(moved)
            &&& r is Some ==> r->0 == stacked_margins_spec(base, position, offset)
        }),
{
    let edge = match position {
        Position::Bottom | Position::BottomLeft | Position::BottomRight => base.bottom,
        _ => base.top,
    };
    let moved = (edge as i64) + (offset as i64);
    if moved < -2147483648 || moved > 2147483647 {
        None
    } else {
        Some(apply_stack_offset(base, position, offset))
    }
}

/// The poller's decision: new margins where the offset moved and they fit, else
/// nothing to do.
pub fn margin_update(base: Margins, position: Position, last_offset: i32, offset: i32) -> (r: Option<Margins>)
    ensures
        offset == last_offset ==> r is None,
        offset != last_offset ==> r == offset_margins_spec(base, position, offset),
{
    if offset == last_offset {
        None
    } else {
        offset_margins(base, position, offset)
    }
}

pub open spec fn offset_margins_spec(base: Margins, position: Position, offset: i32) -> Option<Margins> {
    let moved = if stacks_from_bottom(position) {
        base.bottom + offset
    } else {
        base.top + offset
    };
    if fits(moved) {
        Some(stacked_margins_spec(base, position, offset))
    } else {
        None
    }
}

} // verus!
