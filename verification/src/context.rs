//! The surface a frame is drawn to: its configuration, how the first one is
//! chosen, and what a resize does to it.

use vstd::prelude::*;

verus! {

/// Pixel formats a surface or a texture can have.
#[derive(Clone, Copy, Debug, PartialEq, Eq, Hash, Structural)]
pub enum TextureFormat {
    Bgra8UnormSrgb,
    Bgra8Unorm,
    Rgba8UnormSrgb,
    Rgba8Unorm,
    Rgba16Float,
    Rgb10a2Unorm,
}

/// How finished frames reach the display.
#[derive(Clone, Copy, Debug, PartialEq, Eq, Hash, Structural)]
pub enum PresentMode {
    AutoVsync,
    AutoNoVsync,
    Fifo,
    FifoRelaxed,
    Immediate,
    Mailbox,
}

/// The format every surface is configured with, whatever the adapter prefers.
pub open spec fn swapchain_format() -> TextureFormat {
    TextureFormat::Bgra8UnormSrgb
}

/// The format textures are uploaded in: four 8-bit channels, sRGB.
pub open spec fn upload_format() -> TextureFormat {
    TextureFormat::Rgba8UnormSrgb
}

/// What a surface is configured with.
#[derive(Clone, Copy, Debug, PartialEq, Eq, Structural)]
pub struct SurfaceConfiguration {
    pub format: TextureFormat,
    pub present_mode: PresentMode,
    pub width: u32,
    pub height: u32,
}

impl SurfaceConfiguration {
    /// A surface that can be drawn to has no empty side.
    pub open spec fn wf(&self) -> bool {
        self.width > 0 && self.height > 0
    }
}

/// What an adapter offers for a surface, each list with its default first.
pub struct SurfaceCapabilities {
    pub formats: Vec<TextureFormat>,
    pub present_modes: Vec<PresentMode>,
}

/// Why rendering cannot start at all.
#[derive(Clone, Copy, Debug, PartialEq, Eq, Structural)]
pub enum FatalError {
    /// No adapter is compatible with the surface.
    NoAdapter,
    /// The adapter did not hand out a device.
    NoDevice,
    /// The adapter offers no format or no present mode for the surface.
    SurfaceUnsupported,
}

/// Why no target could be acquired for a frame.
#[derive(Clone, Copy, Debug, PartialEq, Eq, Structural)]
pub enum SurfaceError {
    Timeout,
    Outdated,
    Lost,
    OutOfMemory,
    Other,
}

impl SurfaceError {
    /// Stale and lost surfaces come back after a reconfiguration; nothing
    /// else does.
    pub open spec fn is_transient(&self) -> bool {
        *self == SurfaceError::Outdated || *self == SurfaceError::Lost
    }

    /// Whether reconfiguring the surface may cure the error.
    pub fn transient(&self) -> (yes: bool)
        ensures
            yes == self.is_transient(),
    {
        match self {
            SurfaceError::Outdated => true,
            SurfaceError::Lost => true,
            _ => false,
        }
    }
}

/// The present mode to configure: `Mailbox`, the non-tearing mode with the
/// lowest latency, where the adapter offers it, else the adapter's default.
pub open spec fn preferred_present_mode(offered: Seq<PresentMode>) -> PresentMode
    recommends
        offered.len() > 0,
{
    if offered.contains(PresentMode::Mailbox) {
        PresentMode::Mailbox
    } else {
        offered[0]
    }
}

/// A side of the surface: the window's, but never zero.
pub open spec fn surface_side(window_side: int) -> int {
    if window_side == 0 {
        1
    } else {
        window_side
    }
}

/// The surface configuration that is in force.
pub struct GraphicsContext {
    config: SurfaceConfiguration,
}

impl GraphicsContext {
    /// The configuration in force.
    pub closed spec fn view(&self) -> SurfaceConfiguration {
        self.config
    }

    /// The surface in force can be drawn to.
    pub open spec fn wf(&self) -> bool {
        self@.wf()
    }

    /// What `initialize` answers: the first failure in the order adapter,
    /// device, surface support, else the configuration.
    pub open spec fn initial(
        adapter: Option<SurfaceCapabilities>,
        device_opened: bool,
        width: u32,
        height: u32,
    ) -> Result<SurfaceConfiguration, FatalError> {
        match adapter {
            None => Err(FatalError::NoAdapter),
            Some(caps) => if !device_opened {
                Err(FatalError::NoDevice)
            } else if caps.formats@.len() == 0 || caps.present_modes@.len() == 0 {
                Err(FatalError::SurfaceUnsupported)
            } else {
                Ok(
                    SurfaceConfiguration {
                        format: swapchain_format(),
                        present_mode: preferred_present_mode(caps.present_modes@),
                        width: surface_side(width as int) as u32,
                        height: surface_side(height as int) as u32,
                    },
                )
            },
        }
    }

    /// Chooses the first configuration from what the adapter reported.
    ///
    /// `adapter` is `None` where no adapter fits the surface, `device_opened`
    /// tells whether the adapter handed out a device, and `width` and `height`
    /// are the window's. The adapter's own format is replaced by the fixed
    /// swapchain format, its present mode by `Mailbox` where that is offered.
    pub fn initialize(
        adapter: Option<SurfaceCapabilities>,
        device_opened: bool,
        width: u32,
        height: u32,
    ) -> (context: Result<GraphicsContext, FatalError>)
        ensures
            match Self::initial(adapter, device_opened, width, height) {
                Ok(config) => context matches Ok(c) && c@ == config && c.wf(),
                Err(e) => context matches Err(f) && f == e,
            },
    {
        let caps = match adapter {
            None => {
                return Err(FatalError::NoAdapter);
            },
            Some(caps) => caps,
        };
        if !device_opened {
            return Err(FatalError::NoDevice);
        }
        if caps.formats.len() == 0 {
            return Err(FatalError::SurfaceUnsupported);
        }
        let present_mode = match choose_present_mode(&caps.present_modes) {
            Some(mode) => mode,
            None => {
                return Err(FatalError::SurfaceUnsupported);
            },
        };
        Ok(
            GraphicsContext {
                config: SurfaceConfiguration {
                    format: TextureFormat::Bgra8UnormSrgb,
                    present_mode,
                    width: if width == 0 { 1 } else { width },
                    height: if height == 0 { 1 } else { height },
                },
            },
        )
    }

    /// The configuration in force.
    pub fn config(&self) -> (config: SurfaceConfiguration)
        ensures
            config == self@,
    {
        self.config
    }

    /// Takes another surface format and keeps the rest. Returns whether the
    /// format changed; what was built against the old one is stale then.
    pub fn set_format(&mut self, format: TextureFormat) -> (changed: bool)
        ensures
            changed == (old(self)@.format != format),
            final(self)@ == (SurfaceConfiguration { format, ..old(self)@ }),
            old(self).wf() ==> final(self).wf(),
    {
        let changed = self.config.format != format;
        self.config.format = format;
        changed
    }

    /// Takes a new size. A size with an empty side is ignored: the last
    /// configuration stays. Returns whether the surface has to be configured
    /// again.
    pub fn reconfigure(&mut self, width: u32, height: u32) -> (applied: bool)
        ensures
            applied == (width > 0 && height > 0),
            !applied ==> *final(self) == *old(self),
            applied ==> final(self)@ == (SurfaceConfiguration { width, height, ..old(self)@ }),
            old(self).wf() ==> final(self).wf(),
    {
        if width == 0 || height == 0 {
            return false;
        }
        self.config.width = width;
        self.config.height = height;
        true
    }
}

/// The present mode to configure among those offered, or `None` where none
/// is offered.
pub fn choose_present_mode(offered: &Vec<PresentMode>) -> (mode: Option<PresentMode>)
    ensures
        offered@.len() == 0 ==> mode is None,
        offered@.len() > 0 ==> mode == Some(preferred_present_mode(offered@)),
{
    if offered.len() == 0 {
        return None;
    }
    let mut i: usize = 0;
    while i < offered.len()
        invariant
            i <= offered@.len(),
            forall|j: int| 0 <= j < i ==> offered@[j] != PresentMode::Mailbox,
        decreases offered@.len() - i,
    {
        if offered[i] == PresentMode::Mailbox {
            return Some(PresentMode::Mailbox);
        }
        i += 1;
    }
    Some(offered[0])
}

} // verus!
