use vulkan_triangle::device::{PhysicalDevice, QueueAssignment, QueueFamily, Selection};
use vulkan_triangle::error::{FrameError, SetupError};
use vulkan_triangle::present::{Command, LoopState, Reply, WindowEvent};
use vulkan_triangle::resources::{CommandBuffer, Framebuffer};
use vulkan_triangle::swapchain::{
    CompositeAlpha, Extent, Format, ImageUsage, PresentMode, SupportedCompositeAlpha,
    SurfaceCapabilities, SurfaceTransform, SwapchainParams,
};
use vulkan_triangle::triangle::{LoopReport, Triangle};

fn device(graphics: &[bool]) -> PhysicalDevice {
    PhysicalDevice {
        queue_families: graphics.iter().map(|&g| QueueFamily { supports_graphics: g }).collect(),
    }
}

fn usage() -> ImageUsage {
    ImageUsage {
        transfer_source: true,
        transfer_destination: true,
        sampled: false,
        storage: false,
        color_attachment: true,
        depth_stencil_attachment: false,
        transient_attachment: false,
        input_attachment: false,
    }
}

fn capabilities() -> SurfaceCapabilities {
    SurfaceCapabilities {
        min_image_count: 2,
        current_extent: Some(Extent { width: 800, height: 600 }),
        current_transform: SurfaceTransform::Identity,
        supported_composite_alpha: SupportedCompositeAlpha {
            opaque: false,
            pre_multiplied: false,
            post_multiplied: true,
            inherit: true,
        },
        supported_usage_flags: usage(),
        supported_formats: vec![Format { code: 50 }, Format { code: 44 }],
    }
}

fn triangle(images: usize) -> Triangle {
    Triangle::initialize(&vec![device(&[false, true])], 1, &capabilities(), images).unwrap()
}

fn frame(image: usize, events: &[WindowEvent]) -> Vec<Reply> {
    vec![
        Reply::ImageAcquired { image },
        Reply::Submitted,
        Reply::PresentQueued,
        Reply::FrameRetired,
        Reply::EventsPolled { events: events.to_vec() },
    ]
}

fn frames(images: &[usize], close_in_last: bool) -> Vec<Reply> {
    let mut replies = Vec::new();
    for (n, &image) in images.iter().enumerate() {
        let last = n + 1 == images.len();
        let event =
            if last && close_in_last { WindowEvent::CloseRequested } else { WindowEvent::Other };
        replies.extend(frame(image, &[event]));
    }
    replies
}

fn position(commands: &[Command], wanted: impl Fn(&Command) -> bool) -> Vec<usize> {
    commands.iter().enumerate().filter(|(_, c)| wanted(c)).map(|(k, _)| k).collect()
}

#[test]
fn initialize_takes_every_setup_decision() {
    let devices = vec![device(&[]), device(&[false, false, true]), device(&[true])];
    let app = Triangle::initialize(&devices, 2, &capabilities(), 3).unwrap();
    assert_eq!(app.selection(), Selection { device: 1, queue_family: 2 });
    assert_eq!(app.queues(), QueueAssignment { graphics: 0, present: 1 });
    assert_eq!(
        app.swapchain(),
        SwapchainParams {
            image_count: 2,
            format: Format { code: 50 },
            dimensions: Extent { width: 800, height: 600 },
            layers: 1,
            usage: usage(),
            transform: SurfaceTransform::Identity,
            alpha: CompositeAlpha::PostMultiplied,
            present_mode: PresentMode::Fifo,
            clipped: true,
        }
    );
    assert_eq!(
        app.framebuffers(),
        &vec![Framebuffer { image: 0 }, Framebuffer { image: 1 }, Framebuffer { image: 2 }]
    );
    let viewport = Extent { width: 800, height: 600 };
    assert_eq!(
        app.command_buffers(),
        &vec![
            CommandBuffer { framebuffer: 0, viewport },
            CommandBuffer { framebuffer: 1, viewport },
            CommandBuffer { framebuffer: 2, viewport },
        ]
    );
    assert_eq!(app.state(), LoopState::AwaitingImage);
}

#[test]
fn initialize_uses_different_fallbacks_for_swapchain_and_viewport() {
    let mut caps = capabilities();
    caps.current_extent = None;
    let app = Triangle::initialize(&vec![device(&[true])], 1, &caps, 1).unwrap();
    assert_eq!(app.swapchain().dimensions, Extent { width: 1280, height: 1024 });
    assert_eq!(app.command_buffers()[0].viewport, Extent { width: 1024, height: 768 });
}

#[test]
fn initialize_reports_the_first_step_that_fails() {
    let good = vec![device(&[true])];
    let no_graphics = vec![device(&[false]), device(&[])];
    let mut no_alpha = capabilities();
    no_alpha.supported_composite_alpha =
        SupportedCompositeAlpha { opaque: false, pre_multiplied: false, post_multiplied: false, inherit: false };
    let mut no_format = capabilities();
    no_format.supported_formats = Vec::new();

    assert_eq!(
        Triangle::initialize(&Vec::new(), 0, &no_alpha, 2).unwrap_err(),
        SetupError::NoDeviceAvailable
    );
    assert_eq!(
        Triangle::initialize(&no_graphics, 0, &no_alpha, 2).unwrap_err(),
        SetupError::NoGraphicsQueueFamily
    );
    assert_eq!(Triangle::initialize(&good, 0, &no_alpha, 2).unwrap_err(), SetupError::NoQueue);
    assert_eq!(
        Triangle::initialize(&good, 1, &no_alpha, 2).unwrap_err(),
        SetupError::NoCompositeAlpha
    );
    assert_eq!(
        Triangle::initialize(&good, 1, &no_format, 2).unwrap_err(),
        SetupError::NoSurfaceFormat
    );
    assert!(Triangle::initialize(&good, 1, &capabilities(), 0).is_ok());
}

#[test]
fn initialize_is_the_same_on_repeated_runs() {
    let devices = vec![device(&[false]), device(&[false, true])];
    let first = Triangle::initialize(&devices, 2, &capabilities(), 3).unwrap();
    let second = Triangle::initialize(&devices, 2, &capabilities(), 3).unwrap();
    assert_eq!(first, second);
}

#[test]
fn main_loop_draws_one_frame_when_first_poll_holds_a_close_request() {
    let mut app = triangle(2);
    let table = app.command_buffers().clone();
    let report = app.main_loop(&frames(&[1], true));
    assert_eq!(
        report,
        LoopReport {
            state: LoopState::Terminated,
            commands: vec![
                Command::AcquireImage,
                Command::Submit { image: 1, command_buffer: table[1] },
                Command::Present { image: 1 },
                Command::WaitForFrame,
                Command::PollEvents,
            ],
            frames_drawn: 1,
        }
    );
    assert_eq!(app.state(), LoopState::Terminated);
}

#[test]
fn main_loop_draws_n_plus_one_frames_for_n_polls_without_close_then_one_with() {
    for n in [0usize, 1, 2, 3, 10, 100] {
        let images: Vec<usize> = (0..=n).map(|frame| frame % 3).collect();
        let mut app = triangle(3);
        let report = app.main_loop(&frames(&images, true));
        assert_eq!(report.state, LoopState::Terminated);
        assert_eq!(report.frames_drawn, n + 1);
        assert_eq!(report.commands.len(), 5 * (n + 1));
        assert_eq!(position(&report.commands, |c| matches!(c, Command::Present { .. })).len(), n + 1);
        assert_eq!(position(&report.commands, |c| *c == Command::AcquireImage).len(), n + 1);
        assert_eq!(report.commands.last(), Some(&Command::PollEvents));
    }
}

#[test]
fn main_loop_keeps_running_while_no_close_request_is_polled() {
    let mut app = triangle(3);
    let report = app.main_loop(&frames(&[0, 1, 2, 0], false));
    assert_eq!(report.state, LoopState::AwaitingImage);
    assert_eq!(report.frames_drawn, 4);
    assert_eq!(report.commands.len(), 21);
    assert_eq!(report.commands.last(), Some(&Command::AcquireImage));
    assert!(app.state().running());
}

#[test]
fn main_loop_stops_within_the_frame_that_polls_the_close_request() {
    let mut replies = frames(&[0, 1], false);
    replies.extend(frame(2, &[WindowEvent::Other, WindowEvent::CloseRequested]));
    replies.extend(frames(&[0, 1, 2], false));
    let mut app = triangle(3);
    let report = app.main_loop(&replies);
    assert_eq!(report.state, LoopState::Terminated);
    assert_eq!(report.frames_drawn, 3);
    assert_eq!(report.commands.len(), 15);
}

#[test]
fn main_loop_submits_only_after_the_acquire_and_presents_only_after_the_submit() {
    let images = [2usize, 0, 1, 1, 0, 2, 2];
    let replies = frames(&images, true);
    let mut app = triangle(3);
    let commands = app.main_loop(&replies).commands;
    let acquires = position(&commands, |c| *c == Command::AcquireImage);
    let submits = position(&commands, |c| matches!(c, Command::Submit { .. }));
    let presents = position(&commands, |c| matches!(c, Command::Present { .. }));
    assert_eq!(acquires.len(), images.len());
    assert_eq!(submits.len(), images.len());
    assert_eq!(presents.len(), images.len());
    for frame in 0..images.len() {
        assert_eq!(acquires[frame], 5 * frame);
        assert_eq!(submits[frame], 5 * frame + 1);
        assert_eq!(presents[frame], 5 * frame + 2);
        assert!(acquires[frame] < submits[frame] && submits[frame] < presents[frame]);
        assert_eq!(replies[submits[frame] - 1], Reply::ImageAcquired { image: images[frame] });
        assert_eq!(replies[presents[frame] - 1], Reply::Submitted);
        assert_eq!(commands[presents[frame]], Command::Present { image: images[frame] });
        if frame + 1 < images.len() {
            assert!(presents[frame] < acquires[frame + 1]);
        }
    }
}

#[test]
fn main_loop_submits_the_command_buffer_of_the_acquired_image_in_every_frame() {
    let images: Vec<usize> = (0..200).map(|frame| (frame * 7 + 3) % 4).collect();
    let mut app = triangle(4);
    let framebuffers = app.framebuffers().clone();
    let table = app.command_buffers().clone();
    let commands = app.main_loop(&frames(&images, true)).commands;
    let mut frame = 0;
    for command in &commands {
        if let Command::Submit { image, command_buffer } = command {
            assert_eq!(*image, images[frame]);
            assert_eq!(*command_buffer, table[*image]);
            assert_eq!(command_buffer.framebuffer, *image);
            assert_eq!(framebuffers[command_buffer.framebuffer].image, *image);
            frame += 1;
        }
    }
    assert_eq!(frame, 200);
}

#[test]
fn main_loop_aborts_at_the_first_failure() {
    let cases: [(usize, FrameError, usize); 4] = [
        (0, FrameError::Acquire, 1),
        (1, FrameError::Submit, 2),
        (2, FrameError::Present, 3),
        (3, FrameError::Wait, 4),
    ];
    for (failing, error, issued) in cases {
        let mut replies = frames(&[0], false);
        let mut second = frame(1, &[WindowEvent::Other]);
        second[failing] = Reply::Failed;
        replies.extend(second);
        replies.extend(frames(&[0], true));
        let mut app = triangle(2);
        let report = app.main_loop(&replies);
        assert_eq!(report.state, LoopState::Failed { error });
        assert_eq!(report.frames_drawn, 1);
        assert_eq!(report.commands.len(), 5 + issued);
        assert_eq!(app.state(), LoopState::Failed { error });
    }
}

#[test]
fn main_loop_aborts_on_an_image_without_command_buffer() {
    let mut app = triangle(2);
    let report = app.main_loop(&frames(&[0, 2, 1], true));
    assert_eq!(report.state, LoopState::Failed { error: FrameError::ImageOutOfRange });
    assert_eq!(report.frames_drawn, 1);
    assert_eq!(report.commands.len(), 6);
}

#[test]
fn main_loop_aborts_on_a_reply_out_of_turn() {
    let mut app = triangle(2);
    let report = app.main_loop(&vec![Reply::ImageAcquired { image: 0 }, Reply::FrameRetired]);
    assert_eq!(report.state, LoopState::Failed { error: FrameError::UnexpectedReply });
    assert_eq!(report.frames_drawn, 0);
    assert_eq!(report.commands.len(), 2);
}

#[test]
fn main_loop_without_replies_has_only_asked_for_an_image() {
    let mut app = triangle(2);
    let report = app.main_loop(&Vec::new());
    assert_eq!(
        report,
        LoopReport {
            state: LoopState::AwaitingImage,
            commands: vec![Command::AcquireImage],
            frames_drawn: 0
        }
    );
}

#[test]
fn main_loop_starts_afresh_each_time_and_leaves_setup_untouched() {
    let mut app = triangle(3);
    let before = app.clone();
    let replies = frames(&[0, 1, 2], true);
    let first = app.main_loop(&replies);
    assert_eq!(app.state(), LoopState::Terminated);
    let second = app.main_loop(&replies);
    assert_eq!(first, second);
    assert_eq!(app.selection(), before.selection());
    assert_eq!(app.queues(), before.queues());
    assert_eq!(app.swapchain(), before.swapchain());
    assert_eq!(app.framebuffers(), before.framebuffers());
    assert_eq!(app.command_buffers(), before.command_buffers());
}

#[test]
fn begin_and_advance_issue_what_main_loop_reports() {
    let replies = frames(&[1, 0, 1], true);
    let mut stepped = triangle(2);
    let mut commands = vec![stepped.begin()];
    for reply in &replies {
        if let Some(command) = stepped.advance(reply) {
            commands.push(command);
        }
    }
    let mut looped = triangle(2);
    let report = looped.main_loop(&replies);
    assert_eq!(commands, report.commands);
    assert_eq!(stepped.state(), report.state);
    assert_eq!(stepped.advance(&Reply::ImageAcquired { image: 0 }), None);
    assert_eq!(stepped.state(), LoopState::Terminated);
}

#[test]
fn setup_error_messages_name_the_step() {
    assert_eq!(SetupError::NoDeviceAvailable.message(), "No device available");
    assert_eq!(
        SetupError::NoGraphicsQueueFamily.message(),
        "Couldn't find a graphical queue family"
    );
    assert_eq!(SetupError::NoQueue.message(), "Failed to create device: no queue");
    assert_eq!(
        SetupError::NoCompositeAlpha.message(),
        "Failed to create swapchain: no composite alpha mode"
    );
    assert_eq!(
        SetupError::NoSurfaceFormat.message(),
        "Failed to create swapchain: no surface format"
    );
}

#[test]
fn frame_error_messages_name_the_step() {
    assert_eq!(FrameError::Acquire.message(), "Failed to acquire the next image");
    assert_eq!(
        FrameError::ImageOutOfRange.message(),
        "Acquired an image without a command buffer"
    );
    assert_eq!(FrameError::Submit.message(), "Failed to submit the command buffer");
    assert_eq!(FrameError::Present.message(), "Failed to present the image");
    assert_eq!(FrameError::Wait.message(), "Failed to wait for the frame");
    assert_eq!(FrameError::UnexpectedReply.message(), "Reply does not answer the issued command");
}
