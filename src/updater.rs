//! The self-update coordinator: a background watch that looks for a newer
//! build of the supervisor's own package, and the owner's side that takes
//! the build it found, once.
//!
//! The watch runs on a context of its own. Each round it asks the install
//! routine for the latest build, then `SelfUpdater::run_step` decides: hand
//! the build over and stop, or wait until the next round. The owner looks
//! at the single-delivery channel without blocking and hands what it saw to
//! `SelfUpdater::updated`, which decides: here is the new build, not yet,
//! or start the watch again because its context died.
use crate::ident::{newer, PackageIdent};
use crate::numeric::{parse_i64, parsed_i64};
use vstd::prelude::*;

verus! {

/// The package whose builds the watch looks for.
pub const SUP_PKG_IDENT: &'static str = "biome/bio-sup";

/// Milliseconds between two rounds of the watch, unless overridden.
pub const DEFAULT_FREQUENCY: i64 = 60_000;

/// Environment variable that overrides the milliseconds between rounds.
pub const FREQUENCY_ENVVAR: &'static str = "HAB_SUP_UPDATE_MS";

/// The milliseconds between rounds, given the value of the override
/// variable if it is set: its number where it spells an `i64`, else the
/// default.
pub open spec fn frequency_of(value: Option<Seq<char>>) -> i64 {
    match value {
        Some(v) => match parsed_i64(v) {
            Some(n) => n,
            None => DEFAULT_FREQUENCY,
        },
        None => DEFAULT_FREQUENCY,
    }
}

/// The milliseconds between rounds, given the value of `FREQUENCY_ENVVAR`
/// if it is set. A value that is not a number falls back to the default.
pub fn update_frequency(value: Option<&str>) -> (r: i64)
    ensures
        r == frequency_of(
            match value {
                Some(v) => Some(v@),
                None => None,
            },
        ),
{
    match value {
        Some(v) => match parse_i64(v) {
            Some(n) => n,
            None => DEFAULT_FREQUENCY,
        },
        None => DEFAULT_FREQUENCY,
    }
}

/// What one call of the install routine gave.
#[derive(Debug)]
pub enum InstallOutcome {
    /// The latest build, now installed.
    Installed(PackageIdent),
    /// The check or the install failed; the text says why.
    Failed(String),
}

/// What the watch does after a round.
#[derive(Debug)]
pub enum UpdateStep {
    /// Send this build to the owner and stop.
    Deliver(PackageIdent),
    /// Sleep this many milliseconds, then start the next round.
    Wait(u64),
}

/// Milliseconds left until `started + frequency` at time `now`; none when
/// that time has passed.
pub open spec fn remaining_ms(started: u64, frequency: i64, now: u64) -> u64 {
    let d = started + frequency - now;
    if d <= 0 {
        0
    } else if d > u64::MAX {
        u64::MAX
    } else {
        d as u64
    }
}

/// Whether a round's outcome brings a build newer than `current`.
pub open spec fn brings_newer(current: PackageIdent, outcome: InstallOutcome) -> bool {
    outcome matches InstallOutcome::Installed(p) && newer(p@, current@)
}

/// The builds that the watch hands over when its rounds have the given
/// outcomes: it stops at the first that brings a newer build.
pub open spec fn deliveries(current: PackageIdent, outcomes: Seq<InstallOutcome>) -> Seq<
    PackageIdent,
>
    decreases outcomes.len(),
{
    if outcomes.len() == 0 {
        Seq::empty()
    } else if brings_newer(current, outcomes[0]) {
        seq![outcomes[0]->Installed_0]
    } else {
        deliveries(current, outcomes.skip(1))
    }
}

/// What the owner's last look at the channel saw.
#[derive(Debug)]
pub enum ChannelState {
    /// The watch sent this build.
    Ready(PackageIdent),
    /// Nothing has been sent yet.
    Empty,
    /// The sending side is gone and sent nothing.
    Closed,
}

/// What the owner's poll comes to.
#[derive(Debug)]
pub enum PollAction {
    /// The new build, handed to the caller.
    Deliver(PackageIdent),
    /// Nothing for the caller yet.
    NotYet,
    /// Nothing for the caller; start a fresh watch with the same
    /// parameters.
    Restart,
}

/// The owner's side of the self-update watch.
#[derive(Debug)]
pub struct SelfUpdater {
    current: PackageIdent,
    update_url: String,
    update_channel: String,
    delivered: bool,
}

impl SelfUpdater {
    /// Whether a build has been handed to the owner already.
    pub closed spec fn has_delivered(&self) -> bool {
        self.delivered
    }

    /// The build that runs now.
    pub closed spec fn spec_current(&self) -> PackageIdent {
        self.current
    }

    /// Where builds are fetched from.
    pub closed spec fn spec_update_url(&self) -> String {
        self.update_url
    }

    /// The channel that builds are taken from.
    pub closed spec fn spec_update_channel(&self) -> String {
        self.update_channel
    }

    /// The build that runs now.
    pub fn current(&self) -> (r: &PackageIdent)
        ensures
            *r == self.spec_current(),
    {
        &self.current
    }

    /// Where builds are fetched from.
    pub fn update_url(&self) -> (r: &String)
        ensures
            *r == self.spec_update_url(),
    {
        &self.update_url
    }

    /// The channel that builds are taken from.
    pub fn update_channel(&self) -> (r: &String)
        ensures
            *r == self.spec_update_channel(),
    {
        &self.update_channel
    }

    /// A coordinator that has handed nothing over yet; its watch is to be
    /// started with the same parameters.
    pub fn new(current: PackageIdent, update_url: String, update_channel: String) -> (r:
        SelfUpdater)
        ensures
            r.spec_current() == current,
            r.spec_update_url() == update_url,
            r.spec_update_channel() == update_channel,
            !r.has_delivered(),
    {
        SelfUpdater { current, update_url, update_channel, delivered: false }
    }

    /// Whether the owner still waits on the channel.
    pub fn is_watching(&self) -> (r: bool)
        ensures
            r == !self.has_delivered(),
    {
        !self.delivered
    }

    /// Decides the end of a round that started at `started_ms`, with
    /// `frequency` milliseconds between rounds, now that it is `now_ms`. A
    /// build newer than `current` is handed over; anything else, a failure
    /// included, waits for the rest of the interval.
    pub fn run_step(
        current: &PackageIdent,
        outcome: InstallOutcome,
        started_ms: u64,
        frequency: i64,
        now_ms: u64,
    ) -> (r: UpdateStep)
        ensures
            brings_newer(*current, outcome) ==> r == UpdateStep::Deliver(
                outcome->Installed_0,
            ),
            !brings_newer(*current, outcome) ==> r == UpdateStep::Wait(
                remaining_ms(started_ms, frequency, now_ms),
            ),
    {
        if let InstallOutcome::Installed(p) = outcome {
            if p.is_newer_than(current) {
                return UpdateStep::Deliver(p);
            }
        }
        let d: i128 = started_ms as i128 + frequency as i128 - now_ms as i128;
        let wait: u64 = if d <= 0 {
            0
        } else if d > u64::MAX as i128 {
            u64::MAX
        } else {
            d as u64
        };
        UpdateStep::Wait(wait)
    }

    /// Decides what a poll gives the owner from what it saw on the
    /// channel. The first build sent is handed over, and nothing after it.
    /// A channel that closed with nothing sent means the watch died: it is
    /// to be started again, and the caller gets nothing this time.
    pub fn updated(&mut self, seen: ChannelState) -> (r: PollAction)
        ensures
            final(self).spec_current() == old(self).spec_current(),
            final(self).spec_update_url() == old(self).spec_update_url(),
            final(self).spec_update_channel() == old(self).spec_update_channel(),
            r == poll_action(old(self).has_delivered(), seen),
            final(self).has_delivered() == poll_delivered(old(self).has_delivered(), seen),
    {
        if self.delivered {
            return PollAction::NotYet;
        }
        match seen {
            ChannelState::Ready(p) => {
                self.delivered = true;
                PollAction::Deliver(p)
            },
            ChannelState::Empty => PollAction::NotYet,
            ChannelState::Closed => PollAction::Restart,
        }
    }
}

/// What a poll gives, given whether a build was handed over before.
pub open spec fn poll_action(delivered: bool, seen: ChannelState) -> PollAction {
    if delivered {
        PollAction::NotYet
    } else {
        match seen {
            ChannelState::Ready(p) => PollAction::Deliver(p),
            ChannelState::Empty => PollAction::NotYet,
            ChannelState::Closed => PollAction::Restart,
        }
    }
}

/// Whether a build has been handed over after a poll.
pub open spec fn poll_delivered(delivered: bool, seen: ChannelState) -> bool {
    delivered || seen is Ready
}

/// What a run of polls gives, one for each look at the channel.
pub open spec fn poll_actions(delivered: bool, seen: Seq<ChannelState>) -> Seq<PollAction>
    decreases seen.len(),
{
    if seen.len() == 0 {
        Seq::empty()
    } else {
        seq![poll_action(delivered, seen[0])] + poll_actions(
            poll_delivered(delivered, seen[0]),
            seen.skip(1),
        )
    }
}

/// How many of `actions` hand a build over.
pub open spec fn count_delivers(actions: Seq<PollAction>) -> nat
    decreases actions.len(),
{
    if actions.len() == 0 {
        0
    } else {
        (if actions[0] is Deliver {
            1nat
        } else {
            0nat
        }) + count_delivers(actions.skip(1))
    }
}

/// A build is never newer than itself.
pub proof fn lemma_same_build_not_newer(p: PackageIdent, current: PackageIdent)
    requires
        p@ == current@,
    ensures
        !newer(p@, current@),
{
}

/// A watch whose rounds each fail or bring no build newer than the running
/// one hands nothing over, however many rounds it runs.
pub proof fn lemma_no_newer_no_delivery(current: PackageIdent, outcomes: Seq<InstallOutcome>)
    requires
        forall|i: int| 0 <= i < outcomes.len() ==> !brings_newer(current, #[trigger] outcomes[i]),
    ensures
        deliveries(current, outcomes) == Seq::<PackageIdent>::empty(),
    decreases outcomes.len(),
{
    if outcomes.len() > 0 {
        assert(!brings_newer(current, outcomes[0]));
        assert forall|i: int| 0 <= i < outcomes.skip(1).len() implies !brings_newer(
            current,
            #[trigger] outcomes.skip(1)[i],
        ) by {
            assert(outcomes.skip(1)[i] == outcomes[i + 1]);
        };
        lemma_no_newer_no_delivery(current, outcomes.skip(1));
    }
}

/// A watch whose install routine keeps returning the build that runs now
/// hands nothing over, however many rounds it runs.
pub proof fn lemma_same_build_never_delivered(current: PackageIdent, outcomes: Seq<InstallOutcome>)
    requires
        forall|i: int|
            0 <= i < outcomes.len() ==> (#[trigger] outcomes[i] matches InstallOutcome::Installed(p)
                && p@ == current@),
    ensures
        deliveries(current, outcomes) == Seq::<PackageIdent>::empty(),
{
    assert forall|i: int| 0 <= i < outcomes.len() implies !brings_newer(
        current,
        #[trigger] outcomes[i],
    ) by {
        if let InstallOutcome::Installed(p) = outcomes[i] {
            lemma_same_build_not_newer(p, current);
        }
    };
    lemma_no_newer_no_delivery(current, outcomes);
}

/// When round `k` is the first to bring a newer build, the watch hands over
/// that build and nothing else, once.
pub proof fn lemma_first_newer_delivered_once(
    current: PackageIdent,
    outcomes: Seq<InstallOutcome>,
    k: int,
)
    requires
        0 <= k < outcomes.len(),
        brings_newer(current, outcomes[k]),
        forall|i: int| 0 <= i < k ==> !brings_newer(current, #[trigger] outcomes[i]),
    ensures
        deliveries(current, outcomes) == seq![outcomes[k]->Installed_0],
    decreases k,
{
    if k > 0 {
        assert(!brings_newer(current, outcomes[0]));
        assert(outcomes.skip(1)[k - 1] == outcomes[k]);
        assert forall|i: int| 0 <= i < k - 1 implies !brings_newer(
            current,
            #[trigger] outcomes.skip(1)[i],
        ) by {
            assert(outcomes.skip(1)[i] == outcomes[i + 1]);
        };
        lemma_first_newer_delivered_once(current, outcomes.skip(1), k - 1);
    }
}

/// Across any run of polls at most one hands a build over; none does once
/// a build was handed over before, nor while the channel never holds one.
pub proof fn lemma_poll_delivers_at_most_once(delivered: bool, seen: Seq<ChannelState>)
    ensures
        count_delivers(poll_actions(delivered, seen)) <= 1,
        delivered ==> count_delivers(poll_actions(delivered, seen)) == 0,
        (forall|i: int| 0 <= i < seen.len() ==> !(#[trigger] seen[i] is Ready)) ==> count_delivers(
            poll_actions(delivered, seen),
        ) == 0,
    decreases seen.len(),
{
    if seen.len() > 0 {
        let rest = seen.skip(1);
        let d2 = poll_delivered(delivered, seen[0]);
        lemma_poll_delivers_at_most_once(d2, rest);
        let acts = poll_actions(delivered, seen);
        assert(acts[0] == poll_action(delivered, seen[0]));
        assert(acts.skip(1) =~= poll_actions(d2, rest));
        if forall|i: int| 0 <= i < seen.len() ==> !(#[trigger] seen[i] is Ready) {
            assert(!(seen[0] is Ready));
            assert forall|i: int| 0 <= i < rest.len() implies !(#[trigger] rest[i] is Ready) by {
                assert(rest[i] == seen[i + 1]);
            };
        }
    }
}

/// Polls that start before any build was handed over give the first build
/// that the channel is seen to hold, at the poll that sees it.
pub proof fn lemma_first_ready_delivered(seen: Seq<ChannelState>, k: int)
    requires
        0 <= k < seen.len(),
        seen[k] is Ready,
        forall|i: int| 0 <= i < k ==> !(#[trigger] seen[i] is Ready),
    ensures
        poll_actions(false, seen).len() == seen.len(),
        poll_actions(false, seen)[k] == PollAction::Deliver(seen[k]->Ready_0),
    decreases k,
{
    lemma_poll_actions_len(false, seen);
    let acts = poll_actions(false, seen);
    if k > 0 {
        assert(!(seen[0] is Ready));
        let rest = seen.skip(1);
        assert(rest[k - 1] == seen[k]);
        assert forall|i: int| 0 <= i < k - 1 implies !(#[trigger] rest[i] is Ready) by {
            assert(rest[i] == seen[i + 1]);
        };
        lemma_first_ready_delivered(rest, k - 1);
        assert(acts.skip(1) =~= poll_actions(false, rest));
        assert(acts[k] == acts.skip(1)[k - 1]);
    }
}

proof fn lemma_poll_actions_len(delivered: bool, seen: Seq<ChannelState>)
    ensures
        poll_actions(delivered, seen).len() == seen.len(),
    decreases seen.len(),
{
    if seen.len() > 0 {
        lemma_poll_actions_len(poll_delivered(delivered, seen[0]), seen.skip(1));
    }
}

} // verus!
