use nivalis::context::{
    choose_present_mode, FatalError, GraphicsContext, PresentMode, SurfaceCapabilities,
    SurfaceConfiguration, SurfaceError, TextureFormat,
};

fn caps(formats: Vec<TextureFormat>, present_modes: Vec<PresentMode>) -> SurfaceCapabilities {
    SurfaceCapabilities {
        formats,
        present_modes,
    }
}

#[test]
fn initialize_overrides_format_and_prefers_mailbox() {
    let adapter = caps(
        vec![TextureFormat::Rgba8Unorm, TextureFormat::Bgra8UnormSrgb],
        vec![PresentMode::Fifo, PresentMode::Immediate, PresentMode::Mailbox],
    );
    let context = GraphicsContext::initialize(Some(adapter), true, 1280, 720)
        .ok()
        .unwrap();
    assert_eq!(
        context.config(),
        SurfaceConfiguration {
            format: TextureFormat::Bgra8UnormSrgb,
            present_mode: PresentMode::Mailbox,
            width: 1280,
            height: 720,
        }
    );
}

#[test]
fn initialize_falls_back_to_the_adapter_default() {
    let adapter = caps(
        vec![TextureFormat::Rgba16Float],
        vec![PresentMode::FifoRelaxed, PresentMode::Fifo],
    );
    let context = GraphicsContext::initialize(Some(adapter), true, 640, 480)
        .ok()
        .unwrap();
    assert_eq!(context.config().present_mode, PresentMode::FifoRelaxed);
    assert_eq!(context.config().format, TextureFormat::Bgra8UnormSrgb);
}

#[test]
fn initialize_without_adapter_is_fatal() {
    assert_eq!(
        GraphicsContext::initialize(None, true, 640, 480).err(),
        Some(FatalError::NoAdapter)
    );
    assert_eq!(
        GraphicsContext::initialize(None, false, 640, 480).err(),
        Some(FatalError::NoAdapter)
    );
}

#[test]
fn initialize_without_device_is_fatal() {
    let adapter = caps(vec![TextureFormat::Bgra8Unorm], vec![PresentMode::Fifo]);
    assert_eq!(
        GraphicsContext::initialize(Some(adapter), false, 640, 480).err(),
        Some(FatalError::NoDevice)
    );
    let nothing = caps(vec![], vec![]);
    assert_eq!(
        GraphicsContext::initialize(Some(nothing), false, 640, 480).err(),
        Some(FatalError::NoDevice)
    );
}

#[test]
fn initialize_on_an_unsupported_surface_is_fatal() {
    let no_formats = caps(vec![], vec![PresentMode::Fifo]);
    assert_eq!(
        GraphicsContext::initialize(Some(no_formats), true, 640, 480).err(),
        Some(FatalError::SurfaceUnsupported)
    );
    let no_modes = caps(vec![TextureFormat::Bgra8Unorm], vec![]);
    assert_eq!(
        GraphicsContext::initialize(Some(no_modes), true, 640, 480).err(),
        Some(FatalError::SurfaceUnsupported)
    );
}

#[test]
fn initialize_never_configures_an_empty_side() {
    let adapter = caps(vec![TextureFormat::Bgra8Unorm], vec![PresentMode::Fifo]);
    let context = GraphicsContext::initialize(Some(adapter), true, 0, 0)
        .ok()
        .unwrap();
    assert_eq!(context.config().width, 1);
    assert_eq!(context.config().height, 1);
    let adapter = caps(vec![TextureFormat::Bgra8Unorm], vec![PresentMode::Fifo]);
    let context = GraphicsContext::initialize(Some(adapter), true, 0, 300)
        .ok()
        .unwrap();
    assert_eq!(context.config().width, 1);
    assert_eq!(context.config().height, 300);
}

fn context() -> GraphicsContext {
    let adapter = caps(vec![TextureFormat::Bgra8Unorm], vec![PresentMode::Fifo]);
    GraphicsContext::initialize(Some(adapter), true, 640, 480)
        .ok()
        .unwrap()
}

#[test]
fn reconfigure_takes_the_requested_size() {
    let mut context = context();
    assert!(context.reconfigure(1920, 1080));
    assert_eq!(
        context.config(),
        SurfaceConfiguration {
            format: TextureFormat::Bgra8UnormSrgb,
            present_mode: PresentMode::Fifo,
            width: 1920,
            height: 1080,
        }
    );
    assert!(context.reconfigure(1, u32::MAX));
    assert_eq!(context.config().width, 1);
    assert_eq!(context.config().height, u32::MAX);
}

#[test]
fn reconfigure_ignores_an_empty_side() {
    let mut context = context();
    let before = context.config();
    assert!(!context.reconfigure(0, 1080));
    assert_eq!(context.config(), before);
    assert!(!context.reconfigure(1920, 0));
    assert_eq!(context.config(), before);
    assert!(!context.reconfigure(0, 0));
    assert_eq!(context.config(), before);
}

#[test]
fn set_format_reports_a_change() {
    let mut context = context();
    assert!(!context.set_format(TextureFormat::Bgra8UnormSrgb));
    assert!(context.set_format(TextureFormat::Rgba8Unorm));
    assert_eq!(context.config().format, TextureFormat::Rgba8Unorm);
    assert_eq!(context.config().width, 640);
    assert_eq!(context.config().present_mode, PresentMode::Fifo);
}

#[test]
fn present_mode_choice() {
    assert_eq!(choose_present_mode(&vec![]), None);
    assert_eq!(
        choose_present_mode(&vec![PresentMode::Mailbox]),
        Some(PresentMode::Mailbox)
    );
    assert_eq!(
        choose_present_mode(&vec![PresentMode::Immediate, PresentMode::Fifo]),
        Some(PresentMode::Immediate)
    );
    assert_eq!(
        choose_present_mode(&vec![
            PresentMode::AutoVsync,
            PresentMode::AutoNoVsync,
            PresentMode::Mailbox
        ]),
        Some(PresentMode::Mailbox)
    );
}

#[test]
fn only_stale_and_lost_surfaces_are_transient() {
    assert!(SurfaceError::Outdated.transient());
    assert!(SurfaceError::Lost.transient());
    assert!(!SurfaceError::Timeout.transient());
    assert!(!SurfaceError::OutOfMemory.transient());
    assert!(!SurfaceError::Other.transient());
}
