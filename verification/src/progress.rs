//! How far a publish has come, as a percentage and in words.
use crate::text::{decimal, decimal_text};
use vstd::prelude::*;

verus! {

/// The stages of a publish, in their order.
#[derive(Clone, Copy, Debug, PartialEq, Eq, Structural)]
pub enum PublishProgressPhase {
    Scanning,
    Preparing,
    Uploading,
    Activating,
    Complete,
}

/// How far a publish has come.
#[derive(Clone, Copy, Debug, PartialEq, Eq, Structural)]
pub struct PublishProgressState {
    pub phase: PublishProgressPhase,
    pub completed_uploads: usize,
    pub total_uploads: usize,
    pub scanned_files: usize,
    pub total_files: usize,
}

pub const PUBLISH_PROGRESS_SCANNING_MAX_PERCENT: u8 = 10;

pub const PUBLISH_PROGRESS_PREPARE_WEIGHT: u8 = 15;

pub const PUBLISH_PROGRESS_UPLOAD_WEIGHT: u8 = 75;

pub const PUBLISH_PROGRESS_ACTIVATE_PERCENT: u8 = 90;

pub const PUBLISH_PROGRESS_COMPLETE_PERCENT: u8 = 100;

pub const PUBLISH_SPINNER_INTERVAL_MS: u64 = 100;

/// The word for a stage.
pub open spec fn phase_word(phase: PublishProgressPhase) -> Seq<char> {
    match phase {
        PublishProgressPhase::Scanning => "scanning"@,
        PublishProgressPhase::Preparing => "preparing"@,
        PublishProgressPhase::Uploading => "uploading"@,
        PublishProgressPhase::Activating => "activating"@,
        PublishProgressPhase::Complete => "complete"@,
    }
}

pub open spec fn min_of(a: int, b: int) -> int {
    if a <= b {
        a
    } else {
        b
    }
}

pub open spec fn max_of(a: int, b: int) -> int {
    if a <= b {
        b
    } else {
        a
    }
}

/// The part of `weight` that `done` is of `total`, rounded down; nothing where there is nothing
/// to do.
pub open spec fn share(done: int, total: int, weight: int) -> int {
    if total == 0 {
        0
    } else {
        min_of(done, total) * weight / total
    }
}

/// The percentage that a stage on its own stands for: scanning counts up to ten, preparing is
/// fifteen, uploading counts from fifteen to ninety.
pub open spec fn phase_percent(state: PublishProgressState) -> int {
    match state.phase {
        PublishProgressPhase::Scanning => share(
            state.scanned_files as int,
            state.total_files as int,
            PUBLISH_PROGRESS_SCANNING_MAX_PERCENT as int,
        ),
        PublishProgressPhase::Preparing => PUBLISH_PROGRESS_PREPARE_WEIGHT as int,
        PublishProgressPhase::Uploading => PUBLISH_PROGRESS_PREPARE_WEIGHT + share(
            state.completed_uploads as int,
            state.total_uploads as int,
            PUBLISH_PROGRESS_UPLOAD_WEIGHT as int,
        ),
        PublishProgressPhase::Activating => PUBLISH_PROGRESS_ACTIVATE_PERCENT as int,
        PublishProgressPhase::Complete => PUBLISH_PROGRESS_COMPLETE_PERCENT as int,
    }
}

/// The percentage to show after `last` was shown: it never goes back.
pub open spec fn shown_percent(state: PublishProgressState, last: int) -> int {
    max_of(phase_percent(state), last)
}

/// The percentages to show for a series of states, after `last` was shown.
pub open spec fn shown_percents(states: Seq<PublishProgressState>, last: int) -> Seq<int>
    decreases states.len(),
{
    if states.len() == 0 {
        Seq::empty()
    } else {
        let now = shown_percent(states[0], last);
        seq![now] + shown_percents(states.drop_first(), now)
    }
}

/// The line that tells how far a publish has come.
pub open spec fn progress_message(percent: u8, state: PublishProgressState) -> Seq<char> {
    if state.phase == PublishProgressPhase::Scanning {
        "publish: "@ + decimal(percent as nat) + "% (scanned "@ + decimal(state.scanned_files as nat)
            + "/"@ + decimal(state.total_files as nat) + " files) scanning"@
    } else {
        "publish: "@ + decimal(percent as nat) + "% ("@ + decimal(state.completed_uploads as nat)
            + "/"@ + decimal(state.total_uploads as nat) + " uploads) "@ + phase_word(state.phase)
    }
}

/// The state while files are scanned.
pub open spec fn scanning_state(processed: usize, total: usize) -> PublishProgressState {
    PublishProgressState {
        phase: PublishProgressPhase::Scanning,
        completed_uploads: 0,
        total_uploads: 0,
        scanned_files: processed,
        total_files: total,
    }
}

proof fn lemma_share_bounds(done: int, total: int, weight: int)
    requires
        0 <= done,
        0 <= total,
        0 <= weight,
    ensures
        0 <= share(done, total, weight) <= weight,
        total > 0 && done >= total ==> share(done, total, weight) == weight,
{
    if total > 0 {
        let part = min_of(done, total);
        assert(0 <= part * weight <= total * weight) by (nonlinear_arith)
            requires
                0 <= part <= total,
                0 <= weight,
        ;
        assert(0 <= part * weight / total <= weight) by (nonlinear_arith)
            requires
                0 <= part * weight <= total * weight,
                total > 0,
        ;
        if done >= total {
            assert(total * weight / total == weight) by (nonlinear_arith)
                requires
                    total > 0,
            ;
        }
    }
}

/// Part of the work, done of total, as a share of `weight`.
fn share_of(done: usize, total: usize, weight: u8) -> (part: u8)
    ensures
        part == share(done as int, total as int, weight as int),
        part <= weight,
{
    proof {
        lemma_share_bounds(done as int, total as int, weight as int);
    }
    if total == 0 {
        return 0;
    }
    let bounded: usize = if done <= total {
        done
    } else {
        total
    };
    assert(bounded * weight <= usize::MAX * u8::MAX) by (nonlinear_arith)
        requires
            0 <= bounded <= usize::MAX,
            0 <= weight <= u8::MAX,
    ;
    assert(usize::MAX * u8::MAX <= u128::MAX) by (nonlinear_arith);
    let part = (bounded as u128 * weight as u128) / (total as u128);
    part as u8
}

impl PublishProgressPhase {
    /// The word for this stage.
    pub fn as_str(self) -> (word: &'static str)
        ensures
            word@ == phase_word(self),
    {
        match self {
            PublishProgressPhase::Scanning => "scanning",
            PublishProgressPhase::Preparing => "preparing",
            PublishProgressPhase::Uploading => "uploading",
            PublishProgressPhase::Activating => "activating",
            PublishProgressPhase::Complete => "complete",
        }
    }
}

impl PublishProgressState {
    /// The state before anything was done.
    pub fn initial() -> (state: PublishProgressState)
        ensures
            state == scanning_state(0, 0),
    {
        PublishProgressState {
            phase: PublishProgressPhase::Scanning,
            completed_uploads: 0,
            total_uploads: 0,
            scanned_files: 0,
            total_files: 0,
        }
    }
}

/// The percentage that scanning has come to.
pub fn calculate_scanning_percent(scanned_files: usize, total_files: usize) -> (percent: u8)
    ensures
        percent == share(
            scanned_files as int,
            total_files as int,
            PUBLISH_PROGRESS_SCANNING_MAX_PERCENT as int,
        ),
{
    share_of(scanned_files, total_files, PUBLISH_PROGRESS_SCANNING_MAX_PERCENT)
}

/// The percentage to show, which never goes back. It is kept in `last_percent`.
pub fn calculate_publish_progress_percent(
    state: PublishProgressState,
    last_percent: &mut u8,
) -> (percent: u8)
    ensures
        percent == shown_percent(state, *old(last_percent) as int),
        *final(last_percent) == percent,
{
    let current: u8 = match state.phase {
        PublishProgressPhase::Scanning => calculate_scanning_percent(
            state.scanned_files,
            state.total_files,
        ),
        PublishProgressPhase::Preparing => PUBLISH_PROGRESS_PREPARE_WEIGHT,
        PublishProgressPhase::Uploading => PUBLISH_PROGRESS_PREPARE_WEIGHT + share_of(
            state.completed_uploads,
            state.total_uploads,
            PUBLISH_PROGRESS_UPLOAD_WEIGHT,
        ),
        PublishProgressPhase::Activating => PUBLISH_PROGRESS_ACTIVATE_PERCENT,
        PublishProgressPhase::Complete => PUBLISH_PROGRESS_COMPLETE_PERCENT,
    };
    if current > *last_percent {
        *last_percent = current;
    }
    *last_percent
}

/// The line that tells how far a publish has come.
pub fn build_publish_progress_message(percent: u8, state: PublishProgressState) -> (message: String)
    ensures
        message@ == progress_message(percent, state),
{
    let mut message = "publish: ".to_string();
    message.append(decimal_text(percent as u64).as_str());
    if state.phase == PublishProgressPhase::Scanning {
        message.append("% (scanned ");
        message.append(decimal_text(state.scanned_files as u64).as_str());
        message.append("/");
        message.append(decimal_text(state.total_files as u64).as_str());
        message.append(" files) scanning");
    } else {
        message.append("% (");
        message.append(decimal_text(state.completed_uploads as u64).as_str());
        message.append("/");
        message.append(decimal_text(state.total_uploads as u64).as_str());
        message.append(" uploads) ");
        message.append(state.phase.as_str());
    }
    message
}

/// The state to report after another file was scanned, where it shows a percentage that was
/// not shown before or is the last one.
pub fn scanning_update(last: Option<u8>, processed: usize, total: usize) -> (update: Option<
    PublishProgressState,
>)
    ensures
        update == (if last == Some(
            share(processed as int, total as int, PUBLISH_PROGRESS_SCANNING_MAX_PERCENT as int) as u8,
        ) && processed != total {
            None::<PublishProgressState>
        } else {
            Some(scanning_state(processed, total))
        }),
{
    let percent = calculate_scanning_percent(processed, total);
    if processed != total {
        if let Some(last) = last {
            if last == percent {
                return None;
            }
        }
    }
    Some(
        PublishProgressState {
            phase: PublishProgressPhase::Scanning,
            completed_uploads: 0,
            total_uploads: 0,
            scanned_files: processed,
            total_files: total,
        },
    )
}

/// The line that a terminal shows while a publish goes on.
#[derive(Clone, Copy, Debug)]
pub struct PublishSpinnerState {
    pub state: PublishProgressState,
    pub last_percent: u8,
    pub frame_index: usize,
    pub line_active: bool,
}

/// The frames of the turning bar.
pub open spec fn spinner_frame(index: int) -> Seq<char> {
    if index == 0 {
        "|"@
    } else if index == 1 {
        "/"@
    } else if index == 2 {
        "-"@
    } else {
        "\\"@
    }
}

impl PublishSpinnerState {
    /// The frame to show next is one of the four.
    pub open spec fn well_formed(self) -> bool {
        self.frame_index < 4
    }

    /// The line before anything was shown.
    pub fn new() -> (spinner: PublishSpinnerState)
        ensures
            spinner.well_formed(),
            spinner == (PublishSpinnerState {
                state: scanning_state(0, 0),
                last_percent: 0,
                frame_index: 0,
                line_active: false,
            }),
    {
        PublishSpinnerState {
            state: PublishProgressState::initial(),
            last_percent: 0,
            frame_index: 0,
            line_active: false,
        }
    }

    /// Moves the bar on, and gives what to write in place of the line.
    pub fn tick(&mut self) -> (line: String)
        requires
            old(self).well_formed(),
        ensures
            final(self).well_formed(),
            final(self).state == old(self).state,
            final(self).line_active,
            final(self).frame_index == (old(self).frame_index + 1) % 4,
            final(self).last_percent == shown_percent(
                old(self).state,
                old(self).last_percent as int,
            ),
            line@ == "\r\u{1b}[2K"@ + spinner_frame(old(self).frame_index as int) + " "@
                + progress_message(final(self).last_percent, old(self).state),
    {
        let mut line = "\r\u{1b}[2K".to_string();
        if self.frame_index == 0 {
            line.append("|");
        } else if self.frame_index == 1 {
            line.append("/");
        } else if self.frame_index == 2 {
            line.append("-");
        } else {
            line.append("\\");
        }
        self.frame_index = (self.frame_index + 1) % 4;
        let mut last: u8 = self.last_percent;
        let percent = calculate_publish_progress_percent(self.state, &mut last);
        self.last_percent = percent;
        self.line_active = true;
        line.append(" ");
        line.append(build_publish_progress_message(percent, self.state).as_str());
        line
    }
}

/// A stage on its own stands for at most a hundred, and only the last for a hundred.
pub proof fn law_phase_percent_bounds(state: PublishProgressState)
    ensures
        0 <= phase_percent(state) <= 100,
        phase_percent(state) == 100 <==> state.phase == PublishProgressPhase::Complete,
        state.phase == PublishProgressPhase::Scanning ==> phase_percent(state) <= 10,
        state.phase == PublishProgressPhase::Uploading ==> 15 <= phase_percent(state) <= 90,
        state.phase == PublishProgressPhase::Uploading && 0 < state.total_uploads
            <= state.completed_uploads ==> phase_percent(state) == 90,
{
    lemma_share_bounds(state.scanned_files as int, state.total_files as int, 10);
    lemma_share_bounds(state.completed_uploads as int, state.total_uploads as int, 75);
}

/// Whatever the states are, the percentages that are shown never go back and never pass a
/// hundred; a publish that is complete shows a hundred.
pub proof fn law_shown_percents_only_rise(states: Seq<PublishProgressState>, last: int)
    requires
        0 <= last <= 100,
    ensures
        shown_percents(states, last).len() == states.len(),
        forall|i: int|
            0 <= i < states.len() ==> last <= #[trigger] shown_percents(states, last)[i] <= 100,
        forall|i: int, j: int|
            0 <= i <= j < states.len() ==> #[trigger] shown_percents(states, last)[i]
                <= #[trigger] shown_percents(states, last)[j],
        forall|i: int|
            0 <= i < states.len() && states[i].phase == PublishProgressPhase::Complete
                ==> #[trigger] shown_percents(states, last)[i] == 100,
    decreases states.len(),
{
    if states.len() > 0 {
        law_phase_percent_bounds(states[0]);
        let now = shown_percent(states[0], last);
        let rest = states.drop_first();
        law_shown_percents_only_rise(rest, now);
        let all = shown_percents(states, last);
        let tail = shown_percents(rest, now);
        assert(all =~= seq![now] + tail);
        assert forall|i: int| 0 < i < states.len() implies #[trigger] all[i] == tail[i - 1] && states[i]
            == rest[i - 1] by {}
    }
}

/// Scanning comes to the whole part of ten times what was scanned of all files, uploading to
/// fifteen and the whole part of seventy-five times what was uploaded of all uploads; preparing
/// is fifteen, activating ninety, and a publish that is complete a hundred.
pub proof fn law_percent_tells_the_part_that_is_done(state: PublishProgressState)
    ensures
        ({
            let percent = phase_percent(state);
            let files = state.total_files as int;
            let uploads = state.total_uploads as int;
            match state.phase {
                PublishProgressPhase::Scanning => {
                    &&& files == 0 ==> percent == 0
                    &&& 0 < files && state.scanned_files <= files ==> percent * files
                        <= state.scanned_files * 10 < (percent + 1) * files
                    &&& 0 < files <= state.scanned_files ==> percent == 10
                },
                PublishProgressPhase::Preparing => percent == 15,
                PublishProgressPhase::Uploading => {
                    &&& uploads == 0 ==> percent == 15
                    &&& 0 < uploads && state.completed_uploads <= uploads ==> (percent - 15) * uploads
                        <= state.completed_uploads * 75 < (percent - 14) * uploads
                    &&& 0 < uploads <= state.completed_uploads ==> percent == 90
                },
                PublishProgressPhase::Activating => percent == 90,
                PublishProgressPhase::Complete => percent == 100,
            }
        }),
{
    lemma_share_is_the_whole_part(state.scanned_files as int, state.total_files as int, 10);
    lemma_share_is_the_whole_part(state.completed_uploads as int, state.total_uploads as int, 75);
    lemma_share_bounds(state.scanned_files as int, state.total_files as int, 10);
    lemma_share_bounds(state.completed_uploads as int, state.total_uploads as int, 75);
}

proof fn lemma_share_is_the_whole_part(done: int, total: int, weight: int)
    requires
        0 <= done,
        0 <= total,
        0 <= weight,
    ensures
        0 < total && done <= total ==> share(done, total, weight) * total <= done * weight < (share(
            done,
            total,
            weight,
        ) + 1) * total,
{
    if 0 < total && done <= total {
        let product = done * weight;
        let part = product / total;
        assert(part * total <= product < (part + 1) * total) by (nonlinear_arith)
            requires
                total > 0,
                part == product / total,
        ;
    }
}

/// The percentage that is shown is the present one, or the last one where that is more.
pub proof fn law_shown_percent_does_not_go_back(state: PublishProgressState, last: int)
    ensures
        phase_percent(state) >= last ==> shown_percent(state, last) == phase_percent(state),
        phase_percent(state) <= last ==> shown_percent(state, last) == last,
{
}

/// The line tells the percentage, what was done of how much, and the stage.
pub proof fn law_progress_line_tells_the_counts(percent: u8, state: PublishProgressState)
    ensures
        ({
            let line = progress_message(percent, state);
            let start = "publish: "@ + decimal(percent as nat);
            let uploads = "% ("@ + decimal(state.completed_uploads as nat) + "/"@ + decimal(
                state.total_uploads as nat,
            ) + " uploads) "@;
            match state.phase {
                PublishProgressPhase::Scanning => line == start + ("% (scanned "@ + decimal(
                    state.scanned_files as nat,
                ) + "/"@ + decimal(state.total_files as nat) + " files) scanning"@),
                PublishProgressPhase::Preparing => line == start + uploads + "preparing"@,
                PublishProgressPhase::Uploading => line == start + uploads + "uploading"@,
                PublishProgressPhase::Activating => line == start + uploads + "activating"@,
                PublishProgressPhase::Complete => line == start + uploads + "complete"@,
            }
        }),
{
}

/// The bar turns through four frames.
pub proof fn law_bar_turns()
    ensures
        spinner_frame(0) == "|"@,
        spinner_frame(1) == "/"@,
        spinner_frame(2) == "-"@,
        spinner_frame(3) == "\\"@,
{
}

/// While files are scanned, nothing was uploaded.
pub proof fn law_scanning_counts_files(processed: usize, total: usize)
    ensures
        ({
            let state = scanning_state(processed, total);
            &&& state.phase == PublishProgressPhase::Scanning
            &&& state.scanned_files == processed
            &&& state.total_files == total
            &&& state.completed_uploads == 0
            &&& state.total_uploads == 0
        }),
{
}

} // verus!
