use roast::error::RoastError;
use roast::renderer::RoastRenderer;
use roast::session::{
    BackendEvent, BackendStorage, EventAction, FullscreenMode, RendererSettings, Roast,
};
use roast::swapchain::VulkanState;
use roast::texture::{DecodedImage, Texture, TextureSampling};

fn settings() -> RendererSettings {
    RendererSettings {
        renderer_size: (0, 0),
        fullscreen_mode: FullscreenMode::Windowed,
        transparent: false,
    }
}

fn session() -> Roast {
    let image = DecodedImage { width: 8, height: 8, rgba: vec![0u8; 256] };
    let default_texture = Texture::new(&image, TextureSampling::Pixel, true);
    Roast::new(settings(), RoastRenderer::new(VulkanState::new((800, 600), 3), default_texture))
}

#[test]
fn handles_start_at_one_and_increase() {
    let mut storage = BackendStorage::new();
    let h1 = storage.init(session());
    let h2 = storage.init(session());
    assert_eq!(h1, 1);
    assert_eq!(h2, 2);
    assert!(h2 > h1);
}

#[test]
fn zero_handle_is_null_pointer() {
    let storage = BackendStorage::new();
    assert!(matches!(storage.check_backend(0), Err(RoastError::NullPointer(_))));
}

#[test]
fn unknown_handle_is_illegal_state() {
    let mut storage = BackendStorage::new();
    storage.init(session());
    assert!(matches!(storage.check_backend(17), Err(RoastError::IllegalState(_))));
}

#[test]
fn only_one_session_runs_at_a_time() {
    let mut storage = BackendStorage::new();
    let h1 = storage.init(session());
    let h2 = storage.init(session());

    // Both validate while nothing runs.
    assert_eq!(storage.check_backend(h1).unwrap(), h1);
    assert_eq!(storage.check_backend(h2).unwrap(), h2);

    // Start h1's loop.
    let running = storage.start_run(h1).unwrap();

    // The running handle still validates; any other handle is refused.
    assert_eq!(storage.check_backend(h1).unwrap(), h1);
    assert!(matches!(storage.check_backend(h2), Err(RoastError::IllegalState(_))));
    assert!(matches!(storage.start_run(h2), Err(RoastError::IllegalState(_))));

    // Starting the running session again is refused too.
    assert!(matches!(storage.start_run(h1), Err(RoastError::IllegalState(_))));

    // After the loop returns the session, the other one can run.
    storage.finish_run(h1, running).unwrap();
    let running2 = storage.start_run(h2).unwrap();
    assert!(matches!(storage.check_backend(h1), Err(RoastError::IllegalState(_))));
    storage.finish_run(h2, running2).unwrap();
}

#[test]
fn finish_run_requires_the_running_handle() {
    let mut storage = BackendStorage::new();
    let h1 = storage.init(session());
    assert!(matches!(storage.finish_run(h1, session()), Err(RoastError::IllegalState(_))));
    let running = storage.start_run(h1).unwrap();
    assert!(matches!(storage.finish_run(h1 + 1, session()), Err(RoastError::IllegalState(_))));
    storage.finish_run(h1, running).unwrap();
}

#[test]
fn check_roast_ui_uses_the_backend_check() {
    let mut storage = BackendStorage::new();
    let h1 = storage.init(session());
    assert_eq!(storage.check_roast_ui(h1).unwrap(), h1);
    assert!(matches!(storage.check_roast_ui(0), Err(RoastError::NullPointer(_))));
    assert!(matches!(storage.check_roast_ui(42), Err(RoastError::IllegalState(_))));
}

#[test]
fn events_drive_the_loop() {
    let mut s = session();

    assert_eq!(s.handle_event(BackendEvent::Other), EventAction::Ignore);
    assert_eq!(s.handle_event(BackendEvent::MainEventsCleared), EventAction::RunStep);

    assert_eq!(s.handle_event(BackendEvent::Resized { width: 300, height: 200 }), EventAction::Ignore);
    assert!(s.renderer.vulkan.should_recreate);
    assert_eq!(s.get_surface_size(), (300, 200));

    assert_eq!(s.handle_event(BackendEvent::CloseRequested), EventAction::Stop);
}
