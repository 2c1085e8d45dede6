//! The application's state: every decision taken during setup, the
//! per-image resource tables, and where the present loop stands.

use crate::device::{
    assign_queues, has_graphics_device, is_selection, pick_physical_device, queue_assignment_of,
    PhysicalDevice, QueueAssignment, Selection,
};
use crate::error::SetupError;
use crate::present::{next, run, start, step, Command, LoopState, Reply, Trace};
use crate::resources::{
    command_buffers_of, create_command_buffers, create_framebuffers, framebuffers_of,
    index_parallel, viewport_extent_of, CommandBuffer, Framebuffer,
};
use crate::swapchain::{
    create_swap_chain, swapchain_params_of, SurfaceCapabilities, SwapchainParams,
};
use vstd::prelude::*;

verus! {

/// The triangle renderer, as far as it is decided by plain values.
#[derive(Clone, Debug, PartialEq, Eq)]
pub struct Triangle {
    selection: Selection,
    queues: QueueAssignment,
    swapchain: SwapchainParams,
    framebuffers: Vec<Framebuffer>,
    command_buffers: Vec<CommandBuffer>,
    state: LoopState,
}

/// What a [`Triangle`] holds.
pub struct TriangleView {
    /// The chosen physical device and queue family.
    pub selection: Selection,
    /// The queues used for graphics and for presenting.
    pub queues: QueueAssignment,
    /// The parameters the swapchain was created with.
    pub swapchain: SwapchainParams,
    /// One framebuffer per swapchain image.
    pub framebuffers: Seq<Framebuffer>,
    /// One command buffer per framebuffer.
    pub command_buffers: Seq<CommandBuffer>,
    /// Where the present loop stands.
    pub state: LoopState,
}

/// What a run of the present loop did.
#[derive(Clone, Debug, PartialEq, Eq)]
pub struct LoopReport {
    /// Where the loop stood when the replies ran out.
    pub state: LoopState,
    /// The commands issued, oldest first.
    pub commands: Vec<Command>,
    /// The number of frames whose chain retired.
    pub frames_drawn: usize,
}

impl View for LoopReport {
    type V = Trace;

    open spec fn view(&self) -> Trace {
        Trace { state: self.state, commands: self.commands@, frames: self.frames_drawn as nat }
    }
}

impl View for Triangle {
    type V = TriangleView;

    closed spec fn view(&self) -> TriangleView {
        TriangleView {
            selection: self.selection,
            queues: self.queues,
            swapchain: self.swapchain,
            framebuffers: self.framebuffers@,
            command_buffers: self.command_buffers@,
            state: self.state,
        }
    }
}

/// The first step of setup that fails on these observations, if any:
/// choosing the device, then assigning the queues, then deriving the
/// swapchain parameters.
pub open spec fn setup_failure(
    devices: Seq<PhysicalDevice>,
    queue_count: nat,
    capabilities: SurfaceCapabilities,
) -> Option<SetupError> {
    if devices.len() == 0 {
        Some(SetupError::NoDeviceAvailable)
    } else if !has_graphics_device(devices) {
        Some(SetupError::NoGraphicsQueueFamily)
    } else if queue_assignment_of(queue_count) is Err {
        Some(queue_assignment_of(queue_count)->Err_0)
    } else if swapchain_params_of(capabilities) is Err {
        Some(swapchain_params_of(capabilities)->Err_0)
    } else {
        None
    }
}

impl Triangle {
    /// The resource tables are index-parallel to the swapchain images.
    pub open spec fn wf(&self) -> bool {
        index_parallel(self@.framebuffers, self@.command_buffers)
    }

    /// Takes every setup decision from what the driver reported: the listed
    /// devices, the number of queues the logical device came with, the
    /// surface's capabilities and the number of images of the swapchain.
    ///
    /// Setup is one-shot: the first step that fails is reported and nothing
    /// is retried. On success the loop is ready to acquire its first image.
    pub fn initialize(
        devices: &Vec<PhysicalDevice>,
        queue_count: usize,
        capabilities: &SurfaceCapabilities,
        image_count: usize,
    ) -> (app: Result<Triangle, SetupError>)
        ensures
            match app {
                Ok(triangle) => {
                    &&& setup_failure(devices@, queue_count as nat, *capabilities) is None
                    &&& is_selection(devices@, triangle@.selection)
                    &&& Ok::<QueueAssignment, SetupError>(triangle@.queues) == queue_assignment_of(
                        queue_count as nat,
                    )
                    &&& Ok::<SwapchainParams, SetupError>(triangle@.swapchain)
                        == swapchain_params_of(*capabilities)
                    &&& triangle@.framebuffers == framebuffers_of(image_count as nat)
                    &&& triangle@.command_buffers == command_buffers_of(
                        image_count as nat,
                        viewport_extent_of(capabilities.current_extent),
                    )
                    &&& triangle@.state == start().state
                    &&& triangle.wf()
                },
                Err(error) => setup_failure(devices@, queue_count as nat, *capabilities) == Some(
                    error,
                ),
            },
    {
        let selection = match pick_physical_device(devices) {
            Ok(selection) => selection,
            Err(error) => {
                return Err(error);
            },
        };
        let queues = match assign_queues(queue_count) {
            Ok(queues) => queues,
            Err(error) => {
                return Err(error);
            },
        };
        let swapchain = match create_swap_chain(capabilities) {
            Ok(swapchain) => swapchain,
            Err(error) => {
                return Err(error);
            },
        };
        let framebuffers = create_framebuffers(image_count);
        let command_buffers = create_command_buffers(&framebuffers, capabilities.current_extent);
        Ok(
            Triangle {
                selection,
                queues,
                swapchain,
                framebuffers,
                command_buffers,
                state: LoopState::AwaitingImage,
            },
        )
    }

    /// Starts the present loop: the first thing to do is to acquire an image.
    pub fn begin(&mut self) -> (command: Command)
        ensures
            command == start().commands[0],
            final(self)@ == (TriangleView { state: start().state, ..old(self)@ }),
    {
        self.state = LoopState::AwaitingImage;
        Command::AcquireImage
    }

    /// Advances the present loop by one reply of the driver and says what
    /// to do next; `None` once the loop has terminated or failed.
    pub fn advance(&mut self, reply: &Reply) -> (command: Option<Command>)
        ensures
            (final(self)@.state, command) == next(
                old(self)@.command_buffers,
                old(self)@.state,
                *reply,
            ),
            final(self)@ == (TriangleView { state: final(self)@.state, ..old(self)@ }),
    {
        let (state, command) = step(&self.command_buffers, self.state, reply);
        self.state = state;
        command
    }

    /// Runs the present loop from its start over the replies of the driver,
    /// in their order, and reports the commands it issued in answer.
    ///
    /// Each frame acquires an image, submits the command buffer recorded for
    /// it, presents it, waits for the frame to retire and polls the window
    /// events. The loop terminates with the frame whose poll holds a close
    /// request and aborts at the first failure; replies past that point are
    /// ignored.
    pub fn main_loop(&mut self, replies: &Vec<Reply>) -> (report: LoopReport)
        ensures
            report@ == run(old(self)@.command_buffers, replies@),
            final(self)@ == (TriangleView { state: report.state, ..old(self)@ }),
    {
        let first = self.begin();
        let mut commands: Vec<Command> = Vec::new();
        commands.push(first);
        let mut frames_drawn: usize = 0;
        let mut i: usize = 0;
        proof {
            assert(replies@.take(0).len() == 0);
            assert(commands@ =~= start().commands);
        }
        while i < replies.len()
            invariant
                i <= replies.len(),
                frames_drawn <= i,
                self@ == (TriangleView { state: self@.state, ..old(self)@ }),
                (Trace { state: self@.state, commands: commands@, frames: frames_drawn as nat })
                    == run(old(self)@.command_buffers, replies@.take(i as int)),
            decreases replies.len() - i,
        {
            proof {
                assert(replies@.take(i + 1).drop_last() =~= replies@.take(i as int));
                assert(replies@.take(i + 1).last() == replies@[i as int]);
            }
            let retiring = match self.state {
                LoopState::AwaitingRetire => match replies[i] {
                    Reply::FrameRetired => true,
                    _ => false,
                },
                _ => false,
            };
            match self.advance(&replies[i]) {
                Some(command) => {
                    commands.push(command);
                },
                None => {},
            }
            if retiring {
                frames_drawn = frames_drawn + 1;
            }
            i = i + 1;
        }
        proof {
            assert(replies@.take(replies@.len() as int) =~= replies@);
        }
        LoopReport { state: self.state, commands, frames_drawn }
    }

    /// The chosen physical device and queue family.
    pub fn selection(&self) -> (selection: Selection)
        ensures
            selection == self@.selection,
    {
        self.selection
    }

    /// The queues used for graphics and for presenting.
    pub fn queues(&self) -> (queues: QueueAssignment)
        ensures
            queues == self@.queues,
    {
        self.queues
    }

    /// The parameters the swapchain was created with.
    pub fn swapchain(&self) -> (swapchain: SwapchainParams)
        ensures
            swapchain == self@.swapchain,
    {
        self.swapchain
    }

    /// The framebuffers, one per swapchain image.
    pub fn framebuffers(&self) -> (framebuffers: &Vec<Framebuffer>)
        ensures
            framebuffers@ == self@.framebuffers,
    {
        &self.framebuffers
    }

    /// The command buffers, one per framebuffer.
    pub fn command_buffers(&self) -> (command_buffers: &Vec<CommandBuffer>)
        ensures
            command_buffers@ == self@.command_buffers,
    {
        &self.command_buffers
    }

    /// Where the present loop stands.
    pub fn state(&self) -> (state: LoopState)
        ensures
            state == self@.state,
    {
        self.state
    }
}

} // verus!
