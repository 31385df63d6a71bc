//! Surfaces and the two graphics contexts their lifecycle runs through.
//!
//! Native display, context, and shareable-image handles are opaque tokens of
//! the native graphics API. This crate carries each as a plain integer; the
//! zero token is the null handle. The embedder makes the native calls and
//! passes the resulting tokens in.

use vstd::prelude::*;
use crate::geometry::Size2D;
use crate::geometry::SurfaceGeometry;

verus! {

/// How a surface operation can fail. Conditions the native API leaves
/// undefined (binding or uploading with no handle, uploading into a wrapped
/// handle of unknown shape) are reported as explicit errors instead.
#[derive(Clone, Copy, PartialEq, Eq, Structural, Debug)]
pub enum SurfaceError {
    /// The native buffer allocation returned the null handle.
    AllocationFailed,
    /// Width, height, and stride do not describe a buffer.
    InvalidGeometry,
    /// The operation needs a native handle and the surface holds none.
    NoNativeHandle,
    /// The surface wraps an externally produced handle, so the shape of its
    /// buffer is not known here.
    UnknownGeometry,
    /// The pixel data does not cover the allocated buffer exactly.
    WrongDataLength,
}

/// Opaque descriptor of the native display a painting context opens on.
/// Copyable; owns no native resource (the display is process-wide).
#[derive(Clone, Copy, PartialEq, Eq, Structural, Debug)]
pub struct NativeGraphicsMetadata {
    pub display: usize,
}

/// The painting side's handle to the native display. It borrows the
/// process-wide display and owns no buffers, so its teardown is a no-op.
#[derive(Clone, Copy, PartialEq, Eq, Structural, Debug)]
pub struct NativePaintingGraphicsContext {
    pub display: usize,
}

impl NativePaintingGraphicsContext {
    /// Copies the display reference out of the metadata; never fails.
    pub fn from_metadata(metadata: &NativeGraphicsMetadata) -> (r: NativePaintingGraphicsContext)
        ensures
            r.display == metadata.display,
    {
        NativePaintingGraphicsContext { display: metadata.display }
    }
}

/// Snapshot of the compositing side's current native state: the display,
/// rendering context, and drawing surface that were current on the
/// compositor's thread when the snapshot was taken. Never mutated after
/// construction; it owns none of the ambient state it names.
#[derive(Clone, Copy, PartialEq, Eq, Structural, Debug)]
pub struct NativeCompositingGraphicsContext {
    pub display: usize,
    pub context: usize,
    pub surface: usize,
}

impl NativeCompositingGraphicsContext {
    /// Builds the snapshot from the handles the caller queried from the
    /// native API's thread-local current state. A caller that queries them
    /// with no rendering context current gets null tokens, and later
    /// operations keyed by this snapshot will fail; the snapshot itself is
    /// just the three values given.
    pub fn new(display: usize, context: usize, surface: usize) -> (r: NativeCompositingGraphicsContext)
        ensures
            r.display == display,
            r.context == context,
            r.surface == surface,
    {
        NativeCompositingGraphicsContext { display, context, surface }
    }
}

/// A reference to a native shareable buffer, plus the leak-detection flag.
///
/// `image` is the token of the native shareable image, `None` once destroyed
/// or when the wrapped raw handle was null. `will_leak == true` means the
/// surface still holds a native resource that nobody has destroyed or taken
/// ownership of: dropping it in that state is the fatal leak the flag exists
/// to catch (the embedder checks `leaks_on_drop` in its drop glue).
/// `geometry` records the buffer shape for a surface allocated here and is
/// `None` for one wrapped from an externally produced handle.
#[derive(Clone, Copy, PartialEq, Eq, Structural, Debug)]
pub struct NativeSurface {
    pub image: Option<usize>,
    pub will_leak: bool,
    pub geometry: Option<SurfaceGeometry>,
}

impl NativeSurface {
    /// A surface is well formed when a held handle is never the null token
    /// and a recorded geometry describes a real buffer.
    pub open spec fn wf(self) -> bool {
        &&& (self.image.is_some() ==> self.image.unwrap() != 0)
        &&& (self.geometry.is_some() ==> self.geometry.unwrap().spec_valid())
    }

    /// The process-independent token of the held handle; zero when none.
    pub open spec fn spec_id(self) -> usize {
        match self.image {
            None => 0,
            Some(image_khr) => image_khr,
        }
    }

    /// The surface `from_image_khr` wraps around a raw handle: leak-flagged,
    /// with the null handle filtered out and no known geometry.
    pub open spec fn spec_from_image_khr(image_khr: usize) -> NativeSurface {
        NativeSurface {
            image: if image_khr == 0 { None } else { Some(image_khr) },
            will_leak: true,
            geometry: None,
        }
    }

    /// The surface `new` yields for each input: an explicit error for a shape
    /// that describes no buffer or for a failed native allocation, otherwise
    /// an owned, trackable surface over the fresh handle.
    pub open spec fn spec_new(size: Size2D, stride: i32, image_khr: usize) -> Result<
        NativeSurface,
        SurfaceError,
    > {
        let geometry = SurfaceGeometry { size, stride };
        if !geometry.spec_valid() {
            Err(SurfaceError::InvalidGeometry)
        } else if image_khr == 0 {
            Err(SurfaceError::AllocationFailed)
        } else {
            Ok(
                NativeSurface {
                    image: Some(image_khr),
                    will_leak: false,
                    geometry: Some(geometry),
                },
            )
        }
    }

    /// The state `destroy` leaves behind: no handle, leak flag clear, the
    /// recorded geometry untouched.
    pub open spec fn spec_destroyed(self) -> NativeSurface {
        NativeSurface { image: None, will_leak: false, geometry: self.geometry }
    }

    /// The same surface with the leak flag set as given.
    pub open spec fn spec_marked(self, will_leak: bool) -> NativeSurface {
        NativeSurface { will_leak, image: self.image, geometry: self.geometry }
    }

    /// What `upload` answers for pixel data of the given length.
    pub open spec fn spec_upload_result(self, len: int) -> Result<(), SurfaceError> {
        if self.image.is_none() {
            Err(SurfaceError::NoNativeHandle)
        } else if self.geometry.is_none() {
            Err(SurfaceError::UnknownGeometry)
        } else if len != self.geometry.unwrap().spec_byte_len() {
            Err(SurfaceError::WrongDataLength)
        } else {
            Ok(())
        }
    }

    /// What `bind_to_texture` answers: the handle to attach, or an explicit
    /// error for a surface that holds none.
    pub open spec fn spec_bind_result(self) -> Result<usize, SurfaceError> {
        match self.image {
            None => Err(SurfaceError::NoNativeHandle),
            Some(image_khr) => Ok(image_khr),
        }
    }

    /// Wraps a handle obtained externally, e.g. received from the other
    /// process. The result is leak-flagged: the receiving side does not yet
    /// know whether it is the designated destroyer, so it must destroy the
    /// surface or mark it otherwise before dropping it. A null raw handle
    /// wraps to a surface with no handle at all.
    pub fn from_image_khr(image_khr: usize) -> (r: NativeSurface)
        ensures
            r == NativeSurface::spec_from_image_khr(image_khr),
            r.wf(),
    {
        let image: Option<usize> = if image_khr != 0 {
            Some(image_khr)
        } else {
            None
        };
        NativeSurface { image, will_leak: true, geometry: None }
    }

    /// Builds the surface over a buffer freshly allocated on the painting
    /// side: `image_khr` is the token the native allocation for `size` and
    /// `stride` returned, zero when that allocation failed. On success the
    /// surface owns the handle and is trackable (`will_leak == false`); a
    /// failed allocation or a meaningless shape is an explicit error, never a
    /// surface that looks bindable.
    pub fn new(
        _native_context: &NativePaintingGraphicsContext,
        size: Size2D,
        stride: i32,
        image_khr: usize,
    ) -> (r: Result<NativeSurface, SurfaceError>)
        ensures
            r == NativeSurface::spec_new(size, stride, image_khr),
            r matches Ok(s) ==> s.wf() && !s.will_leak && s.spec_id() == image_khr,
    {
        let geometry = SurfaceGeometry { size, stride };
        if !geometry.valid() {
            Err(SurfaceError::InvalidGeometry)
        } else if image_khr == 0 {
            Err(SurfaceError::AllocationFailed)
        } else {
            Ok(NativeSurface { image: Some(image_khr), will_leak: false, geometry: Some(geometry) })
        }
    }

    /// Painting side only. Checks that `data` covers the allocated buffer
    /// exactly, so the embedder's native write can replace the whole buffer
    /// in one step and no partial state is ever shareable. Answers `Ok` if
    /// and only if the surface holds a handle, was allocated here, and
    /// `data` has exactly `stride * height` bytes.
    pub fn upload(
        &self,
        _graphics_context: &NativePaintingGraphicsContext,
        data: &[u8],
    ) -> (r: Result<(), SurfaceError>)
        requires
            self.wf(),
        ensures
            r == self.spec_upload_result(data@.len() as int),
    {
        if self.image.is_none() {
            Err(SurfaceError::NoNativeHandle)
        } else {
            match self.geometry {
                None => Err(SurfaceError::UnknownGeometry),
                Some(geometry) => {
                    if data.len() as u64 != geometry.byte_len() {
                        Err(SurfaceError::WrongDataLength)
                    } else {
                        Ok(())
                    }
                },
            }
        }
    }

    /// Compositing side only. Decides the native image to attach to the
    /// texture the caller has already bound: the held handle, or an explicit
    /// error for a surface that holds none (never a crash). Reads the
    /// snapshot and the surface only; the ownership state (`will_leak`) is
    /// untouched.
    pub fn bind_to_texture(
        &self,
        _native_context: &NativeCompositingGraphicsContext,
        _size: Size2D,
    ) -> (r: Result<usize, SurfaceError>)
        ensures
            r == self.spec_bind_result(),
            r matches Ok(image_khr) ==> self.image == Some(image_khr),
            self.image.is_none() ==> r == Err::<usize, SurfaceError>(SurfaceError::NoNativeHandle),
    {
        match self.image {
            None => Err(SurfaceError::NoNativeHandle),
            Some(image_khr) => Ok(image_khr),
        }
    }

    /// The process-independent integer the handle travels as: the held
    /// handle's token, or zero when the surface holds none. A well-formed
    /// surface never holds the zero token, so zero always means "absent".
    pub fn get_id(&self) -> (r: usize)
        ensures
            r == self.spec_id(),
    {
        match self.image {
            None => 0,
            Some(image_khr) => image_khr,
        }
    }

    /// Releases the surface's claim on its native buffer: clears the handle,
    /// marks the surface as not leaking, and hands back the handle the
    /// caller must now release natively (keyed by the painting display).
    /// Idempotent: with no handle held it answers `None` and owes no native
    /// release.
    pub fn destroy(&mut self, _graphics_context: &NativePaintingGraphicsContext) -> (released: Option<
        usize,
    >)
        ensures
            *final(self) == old(self).spec_destroyed(),
            released == old(self).image,
            old(self).wf() ==> final(self).wf(),
    {
        let released = self.image;
        self.image = None;
        self.mark_wont_leak();
        released
    }

    /// Flags the surface as holding a native resource that still needs an
    /// explicit release; dropping it now would be the fatal leak.
    pub fn mark_will_leak(&mut self)
        ensures
            *final(self) == old(self).spec_marked(true),
    {
        self.will_leak = true;
    }

    /// Clears the leak flag: the caller has transferred ownership of the
    /// native resource (or destroyed it) and local leak detection must not
    /// fire for this surface.
    pub fn mark_wont_leak(&mut self)
        ensures
            *final(self) == old(self).spec_marked(false),
    {
        self.will_leak = false;
    }

    /// Whether dropping the surface in its current state is a leak: the
    /// terminal check the embedder's drop glue turns into a fatal failure.
    pub fn leaks_on_drop(&self) -> (r: bool)
        ensures
            r == self.will_leak,
    {
        self.will_leak
    }
}

/// A surface allocated by `new` and destroyed at once ends with the leak
/// flag clear and the native handle cleared, so dropping it trips no leak
/// check.
pub proof fn lemma_new_then_destroy_is_clean(
    s: NativeSurface,
    size: Size2D,
    stride: i32,
    image_khr: usize,
)
    requires
        NativeSurface::spec_new(size, stride, image_khr) == Ok::<NativeSurface, SurfaceError>(s),
    ensures
        s.spec_destroyed().image.is_none(),
        !s.spec_destroyed().will_leak,
{
}

/// Destroying a surface twice is the same as destroying it once, and the
/// second destruction hands back no handle, so it owes no native release.
pub proof fn lemma_destroy_idempotent(s: NativeSurface)
    ensures
        s.spec_destroyed().spec_destroyed() == s.spec_destroyed(),
        s.spec_destroyed().image.is_none(),
{
}

/// A surface wrapped from a raw handle starts leak-flagged, so dropping it
/// unchanged trips the leak check; once marked as not leaking it does not,
/// and the marking leaves the handle itself alone.
pub proof fn lemma_from_handle_leak_flag(image_khr: usize)
    ensures
        NativeSurface::spec_from_image_khr(image_khr).will_leak,
        !NativeSurface::spec_from_image_khr(image_khr).spec_marked(false).will_leak,
        NativeSurface::spec_from_image_khr(image_khr).spec_marked(false).image
            == NativeSurface::spec_from_image_khr(image_khr).image,
{
}

/// The id of a well-formed surface is the zero sentinel exactly when it holds
/// no handle; a surface freshly allocated by `new` reports the nonzero handle
/// it was given.
pub proof fn lemma_id_zero_iff_no_handle(s: NativeSurface)
    requires
        s.wf(),
    ensures
        (s.spec_id() == 0) <==> s.image.is_none(),
{
}

/// Round trip across the process boundary: wrapping the id of a surface that
/// holds a handle yields a surface over the same native buffer, leak-flagged
/// until the receiving side takes a decision on ownership.
pub proof fn lemma_id_round_trip(s: NativeSurface)
    requires
        s.wf(),
        s.image.is_some(),
    ensures
        NativeSurface::spec_from_image_khr(s.spec_id()).image == s.image,
        NativeSurface::spec_from_image_khr(s.spec_id()).will_leak,
{
}

} // verus!
