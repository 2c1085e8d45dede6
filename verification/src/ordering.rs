//! What holds of every run of the present loop.
//!
//! A run is a sequence of driver replies fed to a freshly started loop. The
//! laws below speak of the commands such a run issues: in which order, in
//! answer to which reply, with which command buffer, and when the run ends.

use crate::present::{
    absorb, has_close_request, run, run_from, start, Command, LoopState, Reply, Trace, WindowEvent,
};
use crate::resources::{index_parallel, CommandBuffer, Framebuffer};
use vstd::prelude::*;

verus! {

/// Command `k` of `commands` is the one its position calls for, issued in
/// answer to the reply that called for it. Position `k` is step `k % 5` of
/// frame `k / 5`; command `k > 0` answers reply `k - 1`.
pub open spec fn in_slot(
    table: Seq<CommandBuffer>,
    replies: Seq<Reply>,
    commands: Seq<Command>,
    k: int,
) -> bool {
    if k % 5 == 0 {
        &&& commands[k] == Command::AcquireImage
        &&& k > 0 ==> (replies[k - 1] matches Reply::EventsPolled { events }
            && !has_close_request(events@))
    } else if k % 5 == 1 {
        &&& replies[k - 1] matches Reply::ImageAcquired { image }
        &&& image < table.len()
        &&& commands[k] == Command::Submit { image, command_buffer: table[image as int] }
        &&& commands[k - 1] == Command::AcquireImage
    } else if k % 5 == 2 {
        &&& replies[k - 1] == Reply::Submitted
        &&& commands[k - 1] matches Command::Submit { image, .. }
        &&& commands[k] == Command::Present { image }
    } else if k % 5 == 3 {
        &&& replies[k - 1] == Reply::PresentQueued
        &&& commands[k - 1] is Present
        &&& commands[k] == Command::WaitForFrame
    } else {
        &&& replies[k - 1] == Reply::FrameRetired
        &&& commands[k] == Command::PollEvents
    }
}

/// `trace` is a trace that `replies` can have led to: its commands follow
/// the frame chain, its state is the one the last command leaves the loop
/// in, and it counts one frame for each completed chain.
pub open spec fn well_shaped(table: Seq<CommandBuffer>, replies: Seq<Reply>, trace: Trace) -> bool {
    let n = trace.commands.len() as int;
    &&& 1 <= n <= replies.len() + 1
    &&& trace.frames == n / 5
    &&& forall|k: int| 0 <= k < n ==> #[trigger] in_slot(table, replies, trace.commands, k)
    &&& match trace.state {
        LoopState::AwaitingImage => n == replies.len() + 1 && n % 5 == 1,
        LoopState::AwaitingSubmit { image } => {
            &&& n == replies.len() + 1
            &&& n % 5 == 2
            &&& trace.commands[n - 1] == Command::Submit {
                image,
                command_buffer: table[image as int],
            }
        },
        LoopState::AwaitingPresent { image } => {
            &&& n == replies.len() + 1
            &&& n % 5 == 3
            &&& trace.commands[n - 1] == Command::Present { image }
        },
        LoopState::AwaitingRetire => n == replies.len() + 1 && n % 5 == 4,
        LoopState::AwaitingEvents => n == replies.len() + 1 && n % 5 == 0,
        LoopState::Terminated => {
            &&& n <= replies.len()
            &&& n % 5 == 0
            &&& replies[n - 1] matches Reply::EventsPolled { events }
            &&& has_close_request(events@)
        },
        LoopState::Failed { .. } => n <= replies.len(),
    }
}

/// The replies of one frame that goes through: `image` is acquired and
/// `events` are found when polling.
pub open spec fn frame_replies(image: usize, events: Vec<WindowEvent>) -> Seq<Reply> {
    seq![
        Reply::ImageAcquired { image },
        Reply::Submitted,
        Reply::PresentQueued,
        Reply::FrameRetired,
        Reply::EventsPolled { events },
    ]
}

/// The replies of `images.len()` frames that go through, frame `j` acquiring
/// `images[j]` and polling `polls[j]`.
pub open spec fn script(images: Seq<usize>, polls: Seq<Vec<WindowEvent>>) -> Seq<Reply>
    recommends
        images.len() == polls.len(),
    decreases images.len(),
{
    if images.len() == 0 {
        Seq::empty()
    } else {
        script(images.drop_last(), polls.drop_last()) + frame_replies(images.last(), polls.last())
    }
}

/// Every run is well shaped.
pub proof fn lemma_run_well_shaped(table: Seq<CommandBuffer>, replies: Seq<Reply>)
    ensures
        well_shaped(table, replies, run(table, replies)),
    decreases replies.len(),
{
    if replies.len() == 0 {
        assert(in_slot(table, replies, start().commands, 0));
    } else {
        let earlier = replies.drop_last();
        let before = run(table, earlier);
        let after = run(table, replies);
        lemma_run_well_shaped(table, earlier);
        assert(after == absorb(table, before, replies.last()));
        let n = before.commands.len() as int;
        assert forall|k: int| 0 <= k < after.commands.len() implies #[trigger] in_slot(
            table,
            replies,
            after.commands,
            k,
        ) by {
            if k < n {
                assert(in_slot(table, earlier, before.commands, k));
                assert(after.commands[k] == before.commands[k]);
                if k > 0 {
                    assert(replies[k - 1] == earlier[k - 1]);
                    assert(after.commands[k - 1] == before.commands[k - 1]);
                }
            } else {
                assert(k == n);
                assert(n == earlier.len() + 1);
                assert(replies[k - 1] == replies.last());
                assert(in_slot(table, earlier, before.commands, n - 1));
                assert(after.commands[k - 1] == before.commands[k - 1]);
            }
        }
        if after.state is Terminated && before.state is Terminated {
            assert(replies[n - 1] == earlier[n - 1]);
        }
    }
}

/// Feeding `first` and then `second` is feeding their concatenation.
pub proof fn lemma_run_from_concat(
    table: Seq<CommandBuffer>,
    trace: Trace,
    first: Seq<Reply>,
    second: Seq<Reply>,
)
    ensures
        run_from(table, trace, first + second) == run_from(
            table,
            run_from(table, trace, first),
            second,
        ),
    decreases second.len(),
{
    if second.len() == 0 {
        assert(first + second =~= first);
    } else {
        lemma_run_from_concat(table, trace, first, second.drop_last());
        assert((first + second).drop_last() =~= first + second.drop_last());
        assert((first + second).last() == second.last());
    }
}

/// A frame that goes through issues submit, present, wait and poll, counts
/// one frame, and then either ends the loop (a close request was polled)
/// or acquires the next image.
pub proof fn lemma_frame_goes_through(
    table: Seq<CommandBuffer>,
    trace: Trace,
    image: usize,
    events: Vec<WindowEvent>,
)
    requires
        trace.state == LoopState::AwaitingImage,
        image < table.len(),
    ensures
        ({
            let after = run_from(table, trace, frame_replies(image, events));
            let chain = trace.commands + seq![
                Command::Submit { image, command_buffer: table[image as int] },
                Command::Present { image },
                Command::WaitForFrame,
                Command::PollEvents,
            ];
            &&& after.frames == trace.frames + 1
            &&& has_close_request(events@) ==> after.state == LoopState::Terminated
                && after.commands == chain
            &&& !has_close_request(events@) ==> after.state == LoopState::AwaitingImage
                && after.commands == chain.push(Command::AcquireImage)
        }),
{
    let r5 = frame_replies(image, events);
    let r4 = r5.drop_last();
    let r3 = r4.drop_last();
    let r2 = r3.drop_last();
    let r1 = r2.drop_last();
    let r0 = r1.drop_last();
    let t0 = run_from(table, trace, r0);
    let t1 = run_from(table, trace, r1);
    let t2 = run_from(table, trace, r2);
    let t3 = run_from(table, trace, r3);
    let t4 = run_from(table, trace, r4);
    let t5 = run_from(table, trace, r5);
    assert(r0.len() == 0);
    assert(t0 == trace);
    assert(r1.last() == Reply::ImageAcquired { image });
    assert(t1 == absorb(table, t0, r1.last()));
    assert(r2.last() == Reply::Submitted);
    assert(t2 == absorb(table, t1, r2.last()));
    assert(r3.last() == Reply::PresentQueued);
    assert(t3 == absorb(table, t2, r3.last()));
    assert(r4.last() == Reply::FrameRetired);
    assert(t4 == absorb(table, t3, r4.last()));
    assert(r5.last() == Reply::EventsPolled { events });
    assert(t5 == absorb(table, t4, r5.last()));
    let chain = trace.commands + seq![
        Command::Submit { image, command_buffer: table[image as int] },
        Command::Present { image },
        Command::WaitForFrame,
        Command::PollEvents,
    ];
    assert(t4.commands =~= chain);
    if !has_close_request(events@) {
        assert(t5.commands =~= chain.push(Command::AcquireImage));
    }
}

/// A submit is issued only in answer to the acquisition of its image: every
/// submit in a run is step 1 of its frame, directly follows that frame's
/// acquire, and names the image that the reply to that acquire delivered.
pub proof fn lemma_submit_follows_acquire(table: Seq<CommandBuffer>, replies: Seq<Reply>, k: int)
    requires
        0 <= k < run(table, replies).commands.len(),
        run(table, replies).commands[k] is Submit,
    ensures
        k % 5 == 1,
        run(table, replies).commands[k - 1] == Command::AcquireImage,
        replies[k - 1] == (Reply::ImageAcquired {
            image: run(table, replies).commands[k]->Submit_image,
        }),
{
    lemma_run_well_shaped(table, replies);
    assert(in_slot(table, replies, run(table, replies).commands, k));
}

/// A present is issued only in answer to the completed submission of its
/// image: every present in a run is step 2 of its frame, directly follows
/// that frame's submit of the same image, and answers the reply that the
/// submit went through.
pub proof fn lemma_present_follows_submit(table: Seq<CommandBuffer>, replies: Seq<Reply>, k: int)
    requires
        0 <= k < run(table, replies).commands.len(),
        run(table, replies).commands[k] is Present,
    ensures
        k % 5 == 2,
        run(table, replies).commands[k - 1] is Submit,
        run(table, replies).commands[k - 1]->Submit_image == run(
            table,
            replies,
        ).commands[k]->Present_image,
        replies[k - 1] == Reply::Submitted,
{
    lemma_run_well_shaped(table, replies);
    assert(in_slot(table, replies, run(table, replies).commands, k));
}

/// In every frame that got as far as presenting, the acquire, the submit and
/// the present were issued in this order and for one and the same image.
pub proof fn lemma_frame_in_order(table: Seq<CommandBuffer>, replies: Seq<Reply>, frame: nat)
    requires
        5 * frame + 2 < run(table, replies).commands.len(),
    ensures
        ({
            let commands = run(table, replies).commands;
            let first = 5 * frame as int;
            &&& commands[first] == Command::AcquireImage
            &&& replies[first] matches Reply::ImageAcquired { image }
            &&& commands[first + 1] == Command::Submit {
                image,
                command_buffer: table[image as int],
            }
            &&& replies[first + 1] == Reply::Submitted
            &&& commands[first + 2] == Command::Present { image }
        }),
{
    lemma_run_well_shaped(table, replies);
    let commands = run(table, replies).commands;
    let first = 5 * frame as int;
    assert(in_slot(table, replies, commands, first));
    assert(in_slot(table, replies, commands, first + 1));
    assert(in_slot(table, replies, commands, first + 2));
}

/// Frames are strictly serial: an acquire after the first is issued only
/// once the frame before it has retired and its poll held no close request.
pub proof fn lemma_acquire_follows_retired_frame(
    table: Seq<CommandBuffer>,
    replies: Seq<Reply>,
    k: int,
)
    requires
        0 < k < run(table, replies).commands.len(),
        run(table, replies).commands[k] == Command::AcquireImage,
    ensures
        k % 5 == 0,
        run(table, replies).commands[k - 1] == Command::PollEvents,
        replies[k - 2] == Reply::FrameRetired,
        replies[k - 1] matches Reply::EventsPolled { events } && !has_close_request(events@),
{
    lemma_run_well_shaped(table, replies);
    let commands = run(table, replies).commands;
    assert(in_slot(table, replies, commands, k));
    assert(in_slot(table, replies, commands, k - 1));
}

/// Nothing is retried: a failed step aborts a running loop on the spot,
/// and the loop issues no command in answer.
pub proof fn lemma_failure_aborts(table: Seq<CommandBuffer>, replies: Seq<Reply>)
    requires
        run(table, replies).state.is_running(),
    ensures
        run(table, replies.push(Reply::Failed)).state is Failed,
        run(table, replies.push(Reply::Failed)).commands == run(table, replies).commands,
        run(table, replies.push(Reply::Failed)).frames == run(table, replies).frames,
{
    assert(replies.push(Reply::Failed).drop_last() =~= replies);
    assert(replies.push(Reply::Failed).last() == Reply::Failed);
}

/// With index-parallel tables, every submit of a run carries the command
/// buffer recorded against the framebuffer of the image that was acquired,
/// however many frames came before.
pub proof fn lemma_command_buffer_parity(
    framebuffers: Seq<Framebuffer>,
    table: Seq<CommandBuffer>,
    replies: Seq<Reply>,
    k: int,
)
    requires
        index_parallel(framebuffers, table),
        0 <= k < run(table, replies).commands.len(),
        run(table, replies).commands[k] is Submit,
    ensures
        ({
            let image = run(table, replies).commands[k]->Submit_image;
            let command_buffer = run(table, replies).commands[k]->Submit_command_buffer;
            &&& replies[k - 1] == Reply::ImageAcquired { image }
            &&& image < table.len()
            &&& command_buffer == table[image as int]
            &&& command_buffer.framebuffer == image
            &&& framebuffers[command_buffer.framebuffer as int].image == image
        }),
{
    lemma_run_well_shaped(table, replies);
    assert(in_slot(table, replies, run(table, replies).commands, k));
}

/// The loop terminates only on a close request: a run that has terminated
/// was sent a poll result holding one, and stopped issuing commands there.
pub proof fn lemma_terminates_only_on_close(table: Seq<CommandBuffer>, replies: Seq<Reply>)
    requires
        run(table, replies).state is Terminated,
    ensures
        ({
            let n = run(table, replies).commands.len() as int;
            &&& 1 <= n <= replies.len()
            &&& replies[n - 1] matches Reply::EventsPolled { events }
            &&& has_close_request(events@)
            &&& run(table, replies).commands[n - 1] == Command::PollEvents
            &&& run(table, replies).frames * 5 == n
        }),
{
    lemma_run_well_shaped(table, replies);
    let n = run(table, replies).commands.len() as int;
    assert(in_slot(table, replies, run(table, replies).commands, n - 1));
}

/// As long as no close request is polled, frames that go through keep the
/// loop running: after `images.len()` of them it has drawn that many frames
/// and has asked for the next image.
pub proof fn lemma_runs_while_not_closed(
    table: Seq<CommandBuffer>,
    images: Seq<usize>,
    polls: Seq<Vec<WindowEvent>>,
)
    requires
        images.len() == polls.len(),
        forall|j: int| 0 <= j < images.len() ==> images[j] < table.len(),
        forall|j: int| 0 <= j < polls.len() ==> !has_close_request(#[trigger] polls[j]@),
    ensures
        run(table, script(images, polls)).state == LoopState::AwaitingImage,
        run(table, script(images, polls)).frames == images.len(),
        run(table, script(images, polls)).commands.len() == 5 * images.len() + 1,
    decreases images.len(),
{
    if images.len() > 0 {
        let earlier = script(images.drop_last(), polls.drop_last());
        lemma_runs_while_not_closed(table, images.drop_last(), polls.drop_last());
        lemma_run_from_concat(table, start(), earlier, frame_replies(images.last(), polls.last()));
        lemma_frame_goes_through(table, run(table, earlier), images.last(), polls.last());
        assert(!has_close_request(polls[polls.len() - 1]@));
    }
}

/// The loop terminates within the iteration that observes the close
/// request: `n` frames whose polls hold no close request, followed by one
/// whose poll holds one, draw exactly `n + 1` frames and then stop, without
/// asking for another image.
pub proof fn lemma_close_ends_loop_after_frame(
    table: Seq<CommandBuffer>,
    images: Seq<usize>,
    polls: Seq<Vec<WindowEvent>>,
)
    requires
        images.len() == polls.len(),
        images.len() >= 1,
        forall|j: int| 0 <= j < images.len() ==> images[j] < table.len(),
        forall|j: int| 0 <= j < polls.len() - 1 ==> !has_close_request(#[trigger] polls[j]@),
        has_close_request(polls.last()@),
    ensures
        run(table, script(images, polls)).state == LoopState::Terminated,
        run(table, script(images, polls)).frames == images.len(),
        run(table, script(images, polls)).commands.len() == 5 * images.len(),
        run(table, script(images, polls)).commands.last() == Command::PollEvents,
{
    let earlier = script(images.drop_last(), polls.drop_last());
    lemma_runs_while_not_closed(table, images.drop_last(), polls.drop_last());
    lemma_run_from_concat(table, start(), earlier, frame_replies(images.last(), polls.last()));
    lemma_frame_goes_through(table, run(table, earlier), images.last(), polls.last());
}

/// Once the loop has terminated or failed, further replies change nothing.
pub proof fn lemma_stopped_loop_stays_stopped(
    table: Seq<CommandBuffer>,
    replies: Seq<Reply>,
    reply: Reply,
)
    requires
        !run(table, replies).state.is_running(),
    ensures
        run(table, replies.push(reply)) == run(table, replies),
{
    assert(replies.push(reply).drop_last() =~= replies);
    assert(replies.push(reply).last() == reply);
}

} // verus!
