use quad_render::{
    check_step, device_attempt, frame_step, handle_message, shader_source, win32_string,
    window_proc, ClientArea, DeviceAttempt, FrameCommand, LoopState, PixelFormat, PollOutcome,
    ProcAction, SetupError, SetupStep, ShaderStage, SwapChainConfig, SwapEffect, WindowEvent,
};

#[test]
fn wide_string_of_ascii() {
    assert_eq!(win32_string("abc"), vec![97u16, 98, 99, 0]);
    assert_eq!(win32_string(""), vec![0u16]);
}

#[test]
fn wide_string_of_other_planes() {
    assert_eq!(win32_string("é😀"), vec![0xE9u16, 0xD83D, 0xDE00, 0]);
    let s = "shaders.hlsl ∑ 𝄞 x";
    let mut expected: Vec<u16> = s.encode_utf16().collect();
    expected.push(0);
    assert_eq!(win32_string(s), expected);
}

#[test]
fn client_area_from_rect() {
    assert_eq!(ClientArea::from_rect(0, 0, 800, 600), Some(ClientArea { width: 800, height: 600 }));
    assert_eq!(ClientArea::from_rect(10, 20, 10, 20), Some(ClientArea { width: 0, height: 0 }));
    assert_eq!(ClientArea::from_rect(5, 0, 4, 600), None);
    assert_eq!(ClientArea::from_rect(0, 7, 800, 6), None);
    assert_eq!(
        ClientArea::from_rect(i32::MIN, i32::MIN, i32::MAX, i32::MAX),
        Some(ClientArea { width: u32::MAX, height: u32::MAX })
    );
}

#[test]
fn only_quit_ends_the_loop() {
    assert_eq!(handle_message(Some(WindowEvent::Quit)), PollOutcome::Quit);
    assert_eq!(handle_message(Some(WindowEvent::Destroy)), PollOutcome::Continue);
    assert_eq!(handle_message(Some(WindowEvent::Other)), PollOutcome::Continue);
    assert_eq!(handle_message(None), PollOutcome::Continue);
}

#[test]
fn destroy_posts_quit() {
    assert_eq!(window_proc(WindowEvent::Destroy), ProcAction::PostQuit);
    assert_eq!(window_proc(WindowEvent::Quit), ProcAction::Default);
    assert_eq!(window_proc(WindowEvent::Other), ProcAction::Default);
}

#[test]
fn running_frame_renders_in_order() {
    let (state, commands) = frame_step(LoopState::Running, PollOutcome::Continue);
    assert_eq!(state, LoopState::Running);
    assert_eq!(
        commands,
        vec![
            FrameCommand::BindTarget,
            FrameCommand::Clear,
            FrameCommand::UpdateTransform,
            FrameCommand::DrawIndexed { index_count: 6, start_index: 0, base_vertex: 0 },
            FrameCommand::Present { sync_interval: 0, flags: 0 },
        ]
    );
}

#[test]
fn quit_ends_the_loop_without_work() {
    let (state, commands) = frame_step(LoopState::Running, PollOutcome::Quit);
    assert_eq!(state, LoopState::Quitting);
    assert!(commands.is_empty());
    let (state, commands) = frame_step(LoopState::Quitting, PollOutcome::Continue);
    assert_eq!(state, LoopState::Quitting);
    assert!(commands.is_empty());
}

#[test]
fn window_of_800_by_600_one_frame() {
    let area = ClientArea::from_rect(0, 0, 800, 600).unwrap();
    let chain = SwapChainConfig::for_window(area);
    assert_eq!((chain.width, chain.height), (800, 600));
    let (state, commands) = frame_step(LoopState::Running, handle_message(None));
    assert_eq!(state, LoopState::Running);
    assert_eq!(commands.len(), 5);
    assert_eq!(commands[1], FrameCommand::Clear);
}

#[test]
fn status_codes_map_to_typed_errors() {
    assert_eq!(check_step(SetupStep::GetAdapter, 0), Ok(()));
    assert_eq!(check_step(SetupStep::GetAdapter, 1), Ok(()));
    let code = 0x8007_0057u32 as i32;
    assert_eq!(
        check_step(SetupStep::QueryDxgiDevice, code),
        Err(SetupError { step: SetupStep::QueryDxgiDevice, code })
    );
    assert_eq!(
        check_step(SetupStep::GetFactory, -1),
        Err(SetupError { step: SetupStep::GetFactory, code: -1 })
    );
    assert_eq!(
        check_step(SetupStep::CreateSwapChain, i32::MIN),
        Err(SetupError { step: SetupStep::CreateSwapChain, code: i32::MIN })
    );
}

#[test]
fn debug_layer_is_optional() {
    assert_eq!(device_attempt(true, 0), DeviceAttempt::Created);
    assert_eq!(device_attempt(false, 0), DeviceAttempt::Created);
    assert_eq!(device_attempt(true, -5), DeviceAttempt::RetryWithoutDebugLayer);
    assert_eq!(
        device_attempt(false, -5),
        DeviceAttempt::Failed(SetupError { step: SetupStep::CreateDevice, code: -5 })
    );
}

#[test]
fn swap_chain_is_flip_model_double_buffered() {
    let c = SwapChainConfig::for_window(ClientArea { width: 1024, height: 768 });
    assert_eq!(c.width, 1024);
    assert_eq!(c.height, 768);
    assert_eq!(c.buffer_count, 2);
    assert_eq!(c.format, PixelFormat::Rgba8Unorm);
    assert_eq!(c.swap_effect, SwapEffect::FlipSequential);
    assert!(c.windowed);
    assert_eq!((c.sample_count, c.sample_quality), (1, 0));
    assert!(c.render_target_output);
}

#[test]
fn shader_sources_per_stage() {
    let vs = shader_source(ShaderStage::Vertex, true);
    assert_eq!(vs.file, "shaders.hlsl");
    assert_eq!(vs.entry_point, "VSMain");
    assert_eq!(vs.target, "vs_5_0");
    assert!(vs.debug_info && vs.skip_optimization);
    let ps = shader_source(ShaderStage::Pixel, false);
    assert_eq!(ps.file, "shaders.hlsl");
    assert_eq!(ps.entry_point, "PSMain");
    assert_eq!(ps.target, "ps_5_0");
    assert!(!ps.debug_info && !ps.skip_optimization);
}
