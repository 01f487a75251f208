//! The renderer: owner of the GPU device model and the presentation
//! surface configuration.
//!
//! The one-time adapter/device negotiation is asynchronous work the host
//! performs against the real windowing and GPU stack; its outcome is handed
//! in as a [`SurfaceHandshake`] and every decision taken on it — which
//! pixel format to prefer, when the surface may be configured, which errors
//! are fatal — is made and verified here.  GPU allocations are modelled by
//! a monotone handle counter: a buffer or texture keeps its handle for its
//! whole lifetime, and contents are plain values.

use vstd::prelude::*;

verus! {

/// The kind of GPU backend the host negotiates.
#[derive(Debug, PartialEq, Eq, Structural, Clone, Copy)]
pub enum Backend {
    WebGL,
    WebGPU,
}

impl Default for Backend {
    fn default() -> (r: Backend)
        ensures
            r == Backend::WebGL,
    {
        Backend::WebGL
    }
}

/// A GPU buffer in the device model: a stable allocation handle plus the
/// current contents as 32-bit words.  The handle never changes while the
/// buffer lives; in-place writes replace only the words.
#[derive(Debug)]
pub struct GpuBuffer {
    pub handle: u64,
    pub words: Vec<u32>,
}

/// A GPU texture in the device model: a stable allocation handle, its
/// extent, and its uploaded RGBA8 bytes.
#[derive(Debug)]
pub struct GpuTexture {
    pub handle: u64,
    pub width: u32,
    pub height: u32,
    pub bytes: Vec<u8>,
}

/// One pixel format the surface reports: an opaque format code and whether
/// it is an sRGB format.
#[derive(Debug, PartialEq, Eq, Structural, Clone, Copy)]
pub struct SurfaceFormat {
    pub code: u32,
    pub srgb: bool,
}

/// What the surface reports it supports, in the order reported.
#[derive(Debug)]
pub struct SurfaceCapabilities {
    pub formats: Vec<SurfaceFormat>,
    pub present_modes: Vec<u32>,
    pub alpha_modes: Vec<u32>,
}

/// The drawable canvas, as the host reports it: its client size in pixels.
#[derive(Debug, PartialEq, Eq, Structural, Clone, Copy)]
pub struct Canvas {
    pub width: u32,
    pub height: u32,
}

/// The configuration the surface currently holds, when it is configured.
#[derive(Debug, PartialEq, Eq, Structural, Clone, Copy)]
pub struct SurfaceConfig {
    pub format: SurfaceFormat,
    pub present_mode: u32,
    pub alpha_mode: u32,
    pub width: u32,
    pub height: u32,
}

/// The outcome of the host's one-time surface/adapter/device negotiation.
#[derive(Debug)]
pub struct SurfaceHandshake {
    pub surface_created: bool,
    pub adapter_found: bool,
    pub device_granted: bool,
    pub capabilities: SurfaceCapabilities,
}

/// Why building a renderer failed.  All of these are fatal to construction:
/// the caller must restart the whole build.
#[derive(Debug)]
pub enum RendererBuildError {
    /// No compatible GPU adapter was found.
    NoAdapter,
    /// A required builder field is missing; carries its name.
    Incomplete(&'static str),
    /// The drawable surface could not be created.
    CreateSurfaceError,
    /// The adapter refused the device request.
    RequestDeviceError,
}

/// Index of the first sRGB-capable format, or -1 if there is none.
pub open spec fn srgb_index(formats: Seq<SurfaceFormat>) -> int
    decreases formats.len(),
{
    if formats.len() == 0 {
        -1
    } else if formats[0].srgb {
        0
    } else {
        let r = srgb_index(formats.drop_first());
        if r == -1 {
            -1
        } else {
            r + 1
        }
    }
}

/// The chosen surface format: the first sRGB-capable format among those
/// reported, falling back to the first reported format.
pub open spec fn preferred_format(formats: Seq<SurfaceFormat>) -> Option<SurfaceFormat> {
    if srgb_index(formats) >= 0 {
        Some(formats[srgb_index(formats)])
    } else if formats.len() > 0 {
        Some(formats[0])
    } else {
        None
    }
}

proof fn lemma_srgb_index_found(formats: Seq<SurfaceFormat>, i: int)
    requires
        0 <= i < formats.len(),
        formats[i].srgb,
        forall|j: int| 0 <= j < i ==> !formats[j].srgb,
    ensures
        srgb_index(formats) == i,
    decreases i,
{
    if i > 0 {
        lemma_srgb_index_found(formats.drop_first(), i - 1);
    }
}

proof fn lemma_srgb_index_absent(formats: Seq<SurfaceFormat>)
    requires
        forall|j: int| 0 <= j < formats.len() ==> !formats[j].srgb,
    ensures
        srgb_index(formats) == -1,
    decreases formats.len(),
{
    if formats.len() > 0 {
        lemma_srgb_index_absent(formats.drop_first());
    }
}

/// Pick the surface format the renderer will present in.
fn choose_format(formats: &Vec<SurfaceFormat>) -> (r: Option<SurfaceFormat>)
    ensures
        r == preferred_format(formats@),
{
    let n = formats.len();
    let mut i: usize = 0;
    while i < n
        invariant
            n == formats@.len(),
            i <= n,
            forall|j: int| 0 <= j < i ==> !formats@[j].srgb,
        decreases n - i,
    {
        if formats[i].srgb {
            proof {
                lemma_srgb_index_found(formats@, i as int);
            }
            return Some(formats[i]);
        }
        i += 1;
    }
    proof {
        lemma_srgb_index_absent(formats@);
    }
    if formats.len() > 0 {
        Some(formats[0])
    } else {
        None
    }
}

/// The configuration the surface receives right after a successful build:
/// present in exactly the case where a present mode, an alpha mode and a
/// format are all reported and both canvas dimensions are nonzero.
pub open spec fn initial_config(caps: SurfaceCapabilities, canvas: Canvas) -> Option<
    SurfaceConfig,
> {
    if caps.present_modes@.len() > 0 && caps.alpha_modes@.len() > 0 && preferred_format(
        caps.formats@,
    ) is Some && canvas.width != 0 && canvas.height != 0 {
        Some(
            SurfaceConfig {
                format: preferred_format(caps.formats@).unwrap(),
                present_mode: caps.present_modes@[0],
                alpha_mode: caps.alpha_modes@[0],
                width: canvas.width,
                height: canvas.height,
            },
        )
    } else {
        None
    }
}

/// The renderer: backend, canvas, negotiated surface state, and the device
/// model's allocation counter.
#[derive(Debug)]
pub struct Renderer {
    pub backend: Backend,
    pub canvas: Canvas,
    pub surface_capabilities: SurfaceCapabilities,
    pub supported_format: Option<SurfaceFormat>,
    pub surface_config: Option<SurfaceConfig>,
    pub next_handle: u64,
}

/// Builder for [`Renderer`]; the canvas is required, the backend defaults
/// to WebGL.
#[derive(Debug, Default)]
pub struct RendererBuilder {
    pub backend: Option<Backend>,
    pub canvas: Option<Canvas>,
}

impl RendererBuilder {
    pub fn backend(self, backend: Backend) -> (r: Self)
        ensures
            r == (RendererBuilder { backend: Some(backend), ..self }),
    {
        RendererBuilder { backend: Some(backend), ..self }
    }

    pub fn canvas(self, canvas: Canvas) -> (r: Self)
        ensures
            r == (RendererBuilder { canvas: Some(canvas), ..self }),
    {
        RendererBuilder { canvas: Some(canvas), ..self }
    }

    /// Complete the build from the host's negotiation outcome.
    ///
    /// The errors are checked in the order the negotiation runs: a missing
    /// canvas, then surface creation, then adapter discovery, then the
    /// device request.  On success the surface is configured exactly when
    /// a present mode, an alpha mode and a format were reported and the
    /// canvas has nonzero extent.
    pub fn build(self, handshake: SurfaceHandshake) -> (r: Result<Renderer, RendererBuildError>)
        ensures
            match r {
                Ok(renderer) => {
                    &&& self.canvas is Some
                    &&& handshake.surface_created
                    &&& handshake.adapter_found
                    &&& handshake.device_granted
                    &&& renderer.backend == (match self.backend {
                        Some(b) => b,
                        None => Backend::WebGL,
                    })
                    &&& Some(renderer.canvas) == self.canvas
                    &&& renderer.surface_capabilities == handshake.capabilities
                    &&& renderer.supported_format == preferred_format(
                        handshake.capabilities.formats@,
                    )
                    &&& renderer.surface_config == initial_config(
                        handshake.capabilities,
                        self.canvas.unwrap(),
                    )
                    &&& renderer.next_handle == 0
                },
                Err(RendererBuildError::Incomplete(_)) => self.canvas is None,
                Err(RendererBuildError::CreateSurfaceError) => {
                    &&& self.canvas is Some
                    &&& !handshake.surface_created
                },
                Err(RendererBuildError::NoAdapter) => {
                    &&& self.canvas is Some
                    &&& handshake.surface_created
                    &&& !handshake.adapter_found
                },
                Err(RendererBuildError::RequestDeviceError) => {
                    &&& self.canvas is Some
                    &&& handshake.surface_created
                    &&& handshake.adapter_found
                    &&& !handshake.device_granted
                },
            },
    {
        let canvas = match self.canvas {
            Some(c) => c,
            None => {
                return Err(
                    RendererBuildError::Incomplete("`canvas` is a required field on the `Renderer` builder"),
                );
            },
        };
        let backend = match self.backend {
            Some(b) => b,
            None => Backend::WebGL,
        };
        if !handshake.surface_created {
            return Err(RendererBuildError::CreateSurfaceError);
        }
        if !handshake.adapter_found {
            return Err(RendererBuildError::NoAdapter);
        }
        if !handshake.device_granted {
            return Err(RendererBuildError::RequestDeviceError);
        }
        let supported_format = choose_format(&handshake.capabilities.formats);
        let surface_config = if handshake.capabilities.present_modes.len() > 0
            && handshake.capabilities.alpha_modes.len() > 0 && supported_format.is_some()
            && canvas.width != 0 && canvas.height != 0 {
            Some(
                SurfaceConfig {
                    format: supported_format.unwrap(),
                    present_mode: handshake.capabilities.present_modes[0],
                    alpha_mode: handshake.capabilities.alpha_modes[0],
                    width: canvas.width,
                    height: canvas.height,
                },
            )
        } else {
            None
        };
        Ok(
            Renderer {
                backend,
                canvas,
                surface_capabilities: handshake.capabilities,
                supported_format,
                surface_config,
                next_handle: 0,
            },
        )
    }
}

impl Renderer {
    pub fn builder() -> (r: RendererBuilder)
        ensures
            r == (RendererBuilder { backend: None::<Backend>, canvas: None::<Canvas> }),
    {
        RendererBuilder { backend: None, canvas: None }
    }

    /// Room for `n` more allocations in the handle counter — a machine
    /// limit, never reached in practice.
    pub open spec fn can_allocate(self, n: nat) -> bool {
        self.next_handle + n <= u64::MAX
    }

    pub fn canvas(&self) -> (r: &Canvas)
        ensures
            *r == self.canvas,
    {
        &self.canvas
    }

    pub fn supported_format(&self) -> (r: &Option<SurfaceFormat>)
        ensures
            *r == self.supported_format,
    {
        &self.supported_format
    }

    pub fn surface_config(&self) -> (r: &Option<SurfaceConfig>)
        ensures
            *r == self.surface_config,
    {
        &self.surface_config
    }

    /// Allocate a bare GPU object handle (a pipeline, bind group or
    /// sampler).  The handle is fresh and the counter advances by one;
    /// nothing else changes.
    pub fn allocate_handle(&mut self) -> (h: u64)
        requires
            old(self).can_allocate(1),
        ensures
            h == old(self).next_handle,
            final(self).next_handle == old(self).next_handle + 1,
            final(self).backend == old(self).backend,
            final(self).canvas == old(self).canvas,
            final(self).surface_capabilities == old(self).surface_capabilities,
            final(self).supported_format == old(self).supported_format,
            final(self).surface_config == old(self).surface_config,
    {
        let h = self.next_handle;
        self.next_handle = self.next_handle + 1;
        h
    }

    /// Allocate a buffer with the given contents.  The handle is fresh and
    /// the counter advances by one; nothing else changes.
    pub fn create_buffer(&mut self, words: Vec<u32>) -> (b: GpuBuffer)
        requires
            old(self).can_allocate(1),
        ensures
            b.handle == old(self).next_handle,
            b.words == words,
            final(self).next_handle == old(self).next_handle + 1,
            final(self).backend == old(self).backend,
            final(self).canvas == old(self).canvas,
            final(self).surface_capabilities == old(self).surface_capabilities,
            final(self).supported_format == old(self).supported_format,
            final(self).surface_config == old(self).surface_config,
    {
        let handle = self.next_handle;
        self.next_handle = self.next_handle + 1;
        GpuBuffer { handle, words }
    }

    /// Allocate a texture with the given extent and uploaded bytes.  The
    /// handle is fresh and the counter advances by one; nothing else
    /// changes.
    pub fn create_texture(&mut self, width: u32, height: u32, bytes: Vec<u8>) -> (t: GpuTexture)
        requires
            old(self).can_allocate(1),
        ensures
            t.handle == old(self).next_handle,
            t.width == width,
            t.height == height,
            t.bytes == bytes,
            final(self).next_handle == old(self).next_handle + 1,
            final(self).backend == old(self).backend,
            final(self).canvas == old(self).canvas,
            final(self).surface_capabilities == old(self).surface_capabilities,
            final(self).supported_format == old(self).supported_format,
            final(self).surface_config == old(self).surface_config,
    {
        let handle = self.next_handle;
        self.next_handle = self.next_handle + 1;
        GpuTexture { handle, width, height, bytes }
    }

    /// Record the canvas's new client size and reconfigure the surface,
    /// but only when a present mode, an alpha mode and a format are all
    /// reported and both dimensions are nonzero; a zero-sized surface is
    /// left as it was.
    pub fn resize(&mut self, width: u32, height: u32)
        ensures
            final(self).canvas == (Canvas { width, height }),
            final(self).surface_config == (if old(self).surface_capabilities.present_modes@.len()
                > 0 && old(self).surface_capabilities.alpha_modes@.len() > 0 && old(
                self,
            ).supported_format is Some && width != 0 && height != 0 {
                Some(
                    SurfaceConfig {
                        format: old(self).supported_format.unwrap(),
                        present_mode: old(self).surface_capabilities.present_modes@[0],
                        alpha_mode: old(self).surface_capabilities.alpha_modes@[0],
                        width,
                        height,
                    },
                )
            } else {
                old(self).surface_config
            }),
            final(self).backend == old(self).backend,
            final(self).surface_capabilities == old(self).surface_capabilities,
            final(self).supported_format == old(self).supported_format,
            final(self).next_handle == old(self).next_handle,
    {
        self.canvas = Canvas { width, height };
        let format = match self.supported_format {
            Some(f) => f,
            None => {
                return ;
            },
        };
        if self.surface_capabilities.present_modes.len() == 0
            || self.surface_capabilities.alpha_modes.len() == 0 {
            return ;
        }
        if width == 0 || height == 0 {
            return ;
        }
        self.surface_config = Some(
            SurfaceConfig {
                format,
                present_mode: self.surface_capabilities.present_modes[0],
                alpha_mode: self.surface_capabilities.alpha_modes[0],
                width,
                height,
            },
        );
    }
}

} // verus!
