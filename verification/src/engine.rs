//! The draw orchestrator.
//!
//! `RenderCore` owns the working set of bitmaps, the current adjustment and
//! the bookkeeping of the render loop, and decides per draw what the GPU
//! shell must do: which bitmap to upload and rebind, what to write into the
//! adjustment uniform buffer, whether to render to the on-screen surface or
//! into an off-screen capture target, and with what readback layout. The
//! shell executes the returned `DrawPlan` against the device and hands a
//! mapped staging buffer back to `complete_export`.

use crate::adjust::{spec_uniform_block, Adjustment};
use crate::bitmap::Bitmap;
use crate::layout::{
    padded_bytes_per_row, spec_padded_row_bytes, spec_strip_rows, staging_buffer_size,
    strip_row_padding,
};
use crate::png::{encode_png_rgba, spec_png_of};
use crate::queue::BitmapQueue;
use vstd::arithmetic::mul::lemma_mul_inequality;
use vstd::prelude::*;

verus! {

/// Why a draw was skipped: nothing to display yet, or the surface has not
/// been configured since the canvas was attached or resized.
#[derive(Clone, Copy, Debug, PartialEq, Eq, Structural)]
pub enum DrawError {
    EmptyQueue,
    NotConfigured,
}

/// Why an export was abandoned: the mapped staging buffer does not have
/// the planned size (a lost device or a cancelled mapping hands back
/// something else than the planned readback).
#[derive(Clone, Copy, Debug, PartialEq, Eq, Structural)]
pub enum ExportError {
    WrongBufferSize,
}

/// The off-screen part of a draw plan: render the current bitmap into a
/// capture target of its native dimensions, then copy it into a staging
/// buffer of `buffer_size` bytes with rows at `padded_bytes_per_row`.
#[derive(Debug)]
pub struct CapturePlan {
    pub width: u32,
    pub height: u32,
    pub unpadded_bytes_per_row: u32,
    pub padded_bytes_per_row: u32,
    pub buffer_size: u64,
    pub filename: String,
}

impl CapturePlan {
    /// The readback layout agrees with the capture dimensions: the natural
    /// row is `4 * width` bytes, the stride is that rounded up to the
    /// hardware boundary, and the buffer holds `height` such rows.
    pub open spec fn wf(self) -> bool {
        &&& 1 <= self.width
        &&& 1 <= self.height
        &&& 4 * self.width + 255 <= u32::MAX
        &&& self.unpadded_bytes_per_row == 4 * self.width
        &&& self.padded_bytes_per_row == spec_padded_row_bytes(self.width)
        &&& self.buffer_size == spec_padded_row_bytes(self.width) * self.height
    }
}

/// One draw, as decided by the orchestrator and executed by the GPU shell:
/// optionally upload and rebind the bitmap at `rebind`, write `uniform`
/// into the adjustment uniform buffer, then render either to the surface
/// (`capture` absent: acquire a frame, render, present) or into an
/// off-screen capture target (`capture` present: render, copy out, start
/// the readback).
#[derive(Debug)]
pub struct DrawPlan {
    pub rebind: Option<usize>,
    pub uniform: Vec<u8>,
    pub capture: Option<CapturePlan>,
}

/// A finished export: the encoded bytes and the metadata the save
/// collaborator needs.
#[derive(Debug)]
pub struct ExportOutput {
    pub bytes: Vec<u8>,
    pub width: u32,
    pub height: u32,
    pub filename: String,
}

/// The render orchestrator's state: the bitmap queue, the current
/// adjustment, the surface configuration, which bitmap the GPU binding set
/// currently holds, the pending one-shot export request, and how many
/// export readbacks are still in flight.
pub struct RenderCore {
    pub queue: BitmapQueue,
    pub adjustment: Adjustment,
    pub surface_width: u32,
    pub surface_height: u32,
    pub configured: bool,
    pub bound_index: Option<usize>,
    pub export_request: Option<String>,
    pub exports_in_flight: u64,
}

/// How `set_current` leaves the orchestrator: a valid index moves the
/// current pointer, an out-of-range index is rejected and changes nothing;
/// the GPU binding is untouched either way.
pub open spec fn set_current_post(
    pre: RenderCore,
    post: RenderCore,
    index: usize,
    ok: bool,
) -> bool {
    &&& ok <==> index < pre.queue.items@.len()
    &&& post.queue.items@ == pre.queue.items@
    &&& post.queue.current_index == if ok {
        index
    } else {
        pre.queue.current_index
    }
    &&& post == RenderCore { queue: post.queue, ..pre }
}

/// The plan a draw hands to the GPU shell, as a function of the state the
/// orchestrator had when the draw was requested: the bitmap at the current
/// index is re-uploaded and re-bound exactly when the caller forced it or
/// the binding holds some other bitmap; the uniform bytes are the current
/// adjustment's block; and a pending export request becomes an off-screen
/// capture sized to that bitmap's native dimensions.
pub open spec fn plan_for(pre: RenderCore, update_texture: bool, plan: DrawPlan) -> bool {
    let cur = pre.queue.current_index;
    let bmp = pre.queue.items@[cur as int];
    &&& plan.rebind == if update_texture || pre.bound_index != Some(cur) {
        Some(cur)
    } else {
        None::<usize>
    }
    &&& plan.uniform@ == spec_uniform_block(pre.adjustment)
    &&& match pre.export_request {
        None => plan.capture is None,
        Some(name) => {
            &&& plan.capture matches Some(c)
            &&& c.wf()
            &&& c.width == bmp.width
            &&& c.height == bmp.height
            &&& c.filename == name
        },
    }
}

/// How a draw leaves the orchestrator. With an empty queue or an
/// unconfigured surface nothing happens but the error; otherwise the caller
/// gets a plan satisfying `plan_for`, the binding bookkeeping moves to the
/// current bitmap, the one-shot export request is consumed, and a consumed
/// request counts one more readback in flight.
pub open spec fn draw_post(
    pre: RenderCore,
    post: RenderCore,
    update_texture: bool,
    r: Result<DrawPlan, DrawError>,
) -> bool {
    if pre.queue.items@.len() == 0 {
        &&& r == Err::<DrawPlan, DrawError>(DrawError::EmptyQueue)
        &&& post == pre
    } else if !pre.configured {
        &&& r == Err::<DrawPlan, DrawError>(DrawError::NotConfigured)
        &&& post == pre
    } else {
        &&& r matches Ok(plan) && plan_for(pre, update_texture, plan)
        &&& post == RenderCore {
            bound_index: Some(pre.queue.current_index),
            export_request: None,
            exports_in_flight: (pre.exports_in_flight + if pre.export_request is Some {
                1u64
            } else {
                0u64
            }) as u64,
            queue: pre.queue,
            ..pre
        }
    }
}

impl RenderCore {
    /// The queue is well-formed, and the binding bookkeeping never points
    /// past it.
    pub open spec fn wf(self) -> bool {
        &&& self.queue.wf()
        &&& self.bound_index matches Some(i) ==> i < self.queue.items@.len()
    }

    /// A fresh orchestrator around the first decoded bitmap: it is the
    /// current one, nothing is bound or requested yet, the adjustment is
    /// the identity, and the surface still has to be configured.
    pub fn new(first: Bitmap) -> (r: RenderCore)
        requires
            first.wf(),
        ensures
            r.wf(),
            r.queue.items@ == seq![first],
            r.queue.current_index == 0,
            r.adjustment.spec_is_identity(),
            r.surface_width == 0,
            r.surface_height == 0,
            !r.configured,
            r.bound_index is None,
            r.export_request is None,
            r.exports_in_flight == 0,
    {
        let mut queue = BitmapQueue::new();
        queue.push_back(first);
        RenderCore {
            queue,
            adjustment: Adjustment::identity(),
            surface_width: 0,
            surface_height: 0,
            configured: false,
            bound_index: None,
            export_request: None,
            exports_in_flight: 0,
        }
    }

    /// Record that the surface was (re)configured to the canvas's current
    /// pixel size; required before the first draw and after every resize.
    pub fn reconfigure(&mut self, width: u32, height: u32)
        requires
            old(self).wf(),
            1 <= width,
            1 <= height,
        ensures
            final (self).wf(),
            *final (self) == (RenderCore {
                surface_width: width,
                surface_height: height,
                configured: true,
                ..*old(self)
            }),
    {
        self.surface_width = width;
        self.surface_height = height;
        self.configured = true;
    }

    /// Move one ingestion batch into the queue, preserving arrival order,
    /// and reset the adjustment to the identity, as a newly landed batch
    /// starts unadjusted.
    pub fn drain_into_queue(&mut self, batch: Vec<Bitmap>)
        requires
            old(self).wf(),
            forall|i: int| 0 <= i < batch@.len() ==> (#[trigger] batch@[i]).wf(),
        ensures
            final (self).wf(),
            final (self).queue.items@ == old(self).queue.items@ + batch@,
            final (self).adjustment.spec_is_identity(),
            *final (self) == (RenderCore {
                queue: final (self).queue,
                adjustment: final (self).adjustment,
                ..*old(self)
            }),
            final (self).queue.current_index == old(self).queue.current_index,
    {
        self.queue.drain_into_queue(batch);
        self.adjustment = Adjustment::identity();
    }

    /// Select the bitmap at `index` as current; an out-of-range index is
    /// rejected, not clamped.
    pub fn set_current(&mut self, index: usize) -> (ok: bool)
        requires
            old(self).wf(),
        ensures
            final (self).wf(),
            set_current_post(*old(self), *final (self), index, ok),
    {
        self.queue.set_current(index)
    }

    /// Replace the adjustment read by subsequent draws.
    pub fn set_adjustment(&mut self, adjustment: Adjustment)
        requires
            old(self).wf(),
        ensures
            final (self).wf(),
            *final (self) == (RenderCore { adjustment, ..*old(self) }),
    {
        self.adjustment = adjustment;
    }

    /// Post a one-shot export request; the next draw consumes it. A second
    /// request before that draw replaces the first.
    pub fn request_export(&mut self, filename: String)
        requires
            old(self).wf(),
        ensures
            final (self).wf(),
            *final (self) == (RenderCore { export_request: Some(filename), ..*old(self) }),
    {
        self.export_request = Some(filename);
    }

    /// Decide one draw. On success the returned plan tells the GPU shell
    /// what to upload, bind, write and render, per `draw_post`; with an
    /// empty queue or an unconfigured surface the draw is skipped and
    /// nothing changes. A pending export readback never blocks a draw.
    pub fn draw(&mut self, update_texture: bool) -> (r: Result<DrawPlan, DrawError>)
        requires
            old(self).wf(),
            old(self).export_request is Some ==> old(self).exports_in_flight < u64::MAX,
        ensures
            final (self).wf(),
            draw_post(*old(self), *final (self), update_texture, r),
    {
        if self.queue.is_empty() {
            return Err(DrawError::EmptyQueue);
        }
        if !self.configured {
            return Err(DrawError::NotConfigured);
        }
        let cur = self.queue.current_index;
        let rebind: Option<usize> = if update_texture {
            Some(cur)
        } else {
            match self.bound_index {
                Some(b) => if b == cur {
                    None
                } else {
                    Some(cur)
                },
                None => Some(cur),
            }
        };
        let uniform = self.adjustment.uniform_bytes();
        let mut request: Option<String> = None;
        std::mem::swap(&mut request, &mut self.export_request);
        let capture: Option<CapturePlan> = match request {
            None => None,
            Some(filename) => {
                self.exports_in_flight = self.exports_in_flight + 1;
                let bmp = self.queue.current();
                let width = bmp.width;
                let height = bmp.height;
                let padded = padded_bytes_per_row(width);
                let buffer_size = staging_buffer_size(width, height);
                Some(
                    CapturePlan {
                        width,
                        height,
                        unpadded_bytes_per_row: 4 * width,
                        padded_bytes_per_row: padded,
                        buffer_size,
                        filename,
                    },
                )
            },
        };
        self.bound_index = Some(cur);
        Ok(DrawPlan { rebind, uniform, capture })
    }

    /// Serve one export request end to end, as far as the orchestrator is
    /// concerned: post the request, decide the capture draw, then decide
    /// one more ordinary draw so the on-screen frame is restored — an
    /// export must not leave the display blank. The capture plan renders
    /// off screen and the restore plan presents to the surface.
    pub fn draw_to_texture(&mut self, filename: String) -> (r: Result<
        (DrawPlan, DrawPlan),
        DrawError,
    >)
        requires
            old(self).wf(),
            old(self).exports_in_flight < u64::MAX,
        ensures
            final (self).wf(),
            r matches Err(e) ==> *final (self) == *old(self) && (e == DrawError::EmptyQueue <==> old(
                self,
            ).queue.items@.len() == 0) && (old(self).queue.items@.len() == 0 || !old(
                self,
            ).configured),
            r matches Ok(plans) ==> {
                let mid = (RenderCore {
                    export_request: Some(filename),
                    ..*old(self)
                });
                &&& old(self).queue.items@.len() > 0 && old(self).configured
                &&& plan_for(mid, true, plans.0)
                &&& plans.0.capture is Some
                &&& plans.1.capture is None
                &&& plans.1.rebind is None
                &&& plans.1.uniform@ == spec_uniform_block(old(self).adjustment)
                &&& *final (self) == (RenderCore {
                    bound_index: Some(old(self).queue.current_index),
                    export_request: None,
                    exports_in_flight: (old(self).exports_in_flight + 1) as u64,
                    ..*old(self)
                })
            },
    {
        if self.queue.is_empty() {
            return Err(DrawError::EmptyQueue);
        }
        if !self.configured {
            return Err(DrawError::NotConfigured);
        }
        self.request_export(filename);
        let capture_plan = match self.draw(true) {
            Ok(plan) => plan,
            Err(_) => {
                proof {
                    assert(false);
                }
                return Err(DrawError::EmptyQueue);
            },
        };
        let restore_plan = match self.draw(false) {
            Ok(plan) => plan,
            Err(_) => {
                proof {
                    assert(false);
                }
                return Err(DrawError::EmptyQueue);
            },
        };
        Ok((capture_plan, restore_plan))
    }

    /// Finish one export whose readback completed: strip the row padding
    /// from the mapped staging buffer, encode the packed pixels as PNG and
    /// return what the save collaborator needs. A buffer of a size other
    /// than the planned one abandons the export; either way the readback is
    /// no longer in flight and the rest of the state is untouched.
    pub fn complete_export(&mut self, capture: CapturePlan, data: Vec<u8>) -> (r: Result<
        ExportOutput,
        ExportError,
    >)
        requires
            old(self).wf(),
            capture.wf(),
            old(self).exports_in_flight >= 1,
        ensures
            final (self).wf(),
            *final (self) == (RenderCore {
                exports_in_flight: (old(self).exports_in_flight - 1) as u64,
                ..*old(self)
            }),
            r is Ok <==> data@.len() == capture.buffer_size,
            r is Err ==> r == Err::<ExportOutput, ExportError>(ExportError::WrongBufferSize),
            r matches Ok(out) ==> {
                &&& out.bytes@ == spec_png_of(
                    spec_strip_rows(data@, capture.width, capture.height as int),
                    capture.width,
                    capture.height,
                )
                &&& out.width == capture.width
                &&& out.height == capture.height
                &&& out.filename == capture.filename
            },
    {
        self.exports_in_flight = self.exports_in_flight - 1;
        let width = capture.width;
        let height = capture.height;
        if (data.len() as u64) != capture.buffer_size {
            return Err(ExportError::WrongBufferSize);
        }
        proof {
            lemma_mul_inequality(
                4 * width as int,
                spec_padded_row_bytes(width),
                height as int,
            );
            assert(4 * width as int * height as int == (4 * width as int) * height as int)
                by (nonlinear_arith);
            assert(spec_padded_row_bytes(width) * height as int == data@.len());
        }
        let packed = strip_row_padding(&data, width, height);
        match encode_png_rgba(&packed, width, height) {
            Ok(bytes) => Ok(
                ExportOutput { bytes, width, height, filename: capture.filename },
            ),
            Err(_) => {
                proof {
                    assert(false);
                }
                Err(ExportError::WrongBufferSize)
            },
        }
    }

    /// Record that an export's readback failed or was cancelled (a lost
    /// device, an unmapped buffer): the export is abandoned and is no
    /// longer in flight; nothing else changes, so the on-screen frame and
    /// the queue are unaffected.
    pub fn abandon_export(&mut self)
        requires
            old(self).wf(),
            old(self).exports_in_flight >= 1,
        ensures
            final (self).wf(),
            *final (self) == (RenderCore {
                exports_in_flight: (old(self).exports_in_flight - 1) as u64,
                ..*old(self)
            }),
    {
        self.exports_in_flight = self.exports_in_flight - 1;
    }
}

} // verus!
