//! Session lifecycle and event routing: per-session state, creation and
//! destruction, and the translation of composition-engine outcomes into
//! protocol actions.
//!
//! The transport owns the event loop and calls in here once per protocol
//! event; every function returns the exact sequence of [`Action`]s the
//! caller must perform, in order, against the transport or the session's
//! preedit surface.

use vstd::prelude::*;

use crate::action::{Action, EVENT_MASK_KEY_PRESS, EVENT_MASK_KEY_RELEASE};
use crate::outcome::InputResult;
use crate::registry::Registry;
use crate::style::{classify, spec_classify, RenderMode};

verus! {

/// Per-session state the core owns.
///
/// `pe` is the identity of the session's preedit surface: present iff the
/// session was negotiated surface-rendered, absent iff inline-callback.
/// The mode is fixed at creation; nothing here ever rebinds it.
pub struct KimeData {
    pe: Option<u32>,
}

impl KimeData {
    /// The session's surface identity, if it owns one.
    pub closed spec fn spec_pe(self) -> Option<u32> {
        self.pe
    }

    /// A surface identity, where present, is a non-zero window handle.
    pub open spec fn wf(self) -> bool {
        match self.spec_pe() {
            Some(id) => id != 0,
            None => true,
        }
    }

    /// Fresh session state holding the given surface identity.
    pub fn new(pe: Option<u32>) -> (data: KimeData)
        requires
            (match pe {
                Some(id) => id != 0,
                None => true,
            }),
        ensures
            data.spec_pe() == pe,
            data.wf(),
    {
        KimeData { pe }
    }

    /// The surface identity, for the session's owner.
    pub fn pe(&self) -> (r: Option<u32>)
        ensures
            r == self.spec_pe(),
    {
        self.pe
    }
}

/// The actions of session creation: exactly one event-mask configuration,
/// asking for key-press and key-release delivery, nothing synchronous.
pub open spec fn spec_create_actions() -> Seq<Action> {
    seq![
        (Action::SetEventMask {
            forward: EVENT_MASK_KEY_PRESS | EVENT_MASK_KEY_RELEASE,
            synchronous: 0,
        }),
    ]
}

/// The actions that deliver one in-progress character: through the
/// protocol's preedit callback for an inline-callback style, else onto
/// the session's surface; a surface-rendered session without a surface
/// shows nothing.
pub open spec fn spec_preedit_actions(input_style: u32, pe: Option<u32>, ch: char) -> Seq<
    Action,
> {
    if spec_classify(input_style) == RenderMode::InlineCallback {
        seq![(Action::DrawPreedit { ch })]
    } else {
        match pe {
            Some(id) => seq![(Action::SurfaceSetPreedit { id, ch })],
            None => Seq::empty(),
        }
    }
}

/// The action that delivers one committed character. Commit never goes
/// through the surface, whatever the session's mode.
pub open spec fn spec_commit_actions(ch: char) -> Seq<Action> {
    seq![(Action::Commit { ch })]
}

/// The actions a key-press outcome of the engine turns into. For the
/// combined commit-with-preedit outcome the preedit delivery comes first,
/// the commit last.
pub open spec fn spec_outcome_actions(input_style: u32, pe: Option<u32>, outcome: InputResult) -> Seq<
    Action,
> {
    match outcome {
        InputResult::Bypass => Seq::empty(),
        InputResult::Consume => Seq::empty(),
        InputResult::CommitBypass(ch) => spec_commit_actions(ch),
        InputResult::Commit(ch) => spec_commit_actions(ch),
        InputResult::Preedit(ch) => spec_preedit_actions(input_style, pe, ch),
        InputResult::CommitPreedit(c, p) => spec_preedit_actions(input_style, pe, p)
            + spec_commit_actions(c),
    }
}

/// Whether the key press is reported to the windowing system as consumed,
/// per outcome: bypassing outcomes hand the key back, all others swallow
/// it.
pub open spec fn spec_outcome_consumed(outcome: InputResult) -> bool {
    match outcome {
        InputResult::Bypass => false,
        InputResult::Consume => true,
        InputResult::CommitBypass(_) => false,
        InputResult::Commit(_) => true,
        InputResult::Preedit(_) => true,
        InputResult::CommitPreedit(_, _) => true,
    }
}

/// The actions of session destruction: one surface teardown where the
/// session owns a surface, none otherwise.
pub open spec fn spec_destroy_actions(pe: Option<u32>) -> Seq<Action> {
    match pe {
        Some(id) => seq![(Action::SurfaceDestroy { id })],
        None => Seq::empty(),
    }
}

/// The server-side session manager: owns the registry of live preedit
/// surfaces and routes every per-session protocol event.
pub struct KimeHandler {
    windows: Registry,
}

impl KimeHandler {
    /// The identities of the live preedit surfaces.
    pub closed spec fn surfaces(self) -> Set<u32> {
        self.windows.ids()
    }

    /// Every live surface identity is a non-zero window handle.
    pub open spec fn wf(self) -> bool {
        forall|id: u32| self.surfaces().contains(id) ==> id != 0
    }

    /// A session's surface reference, where it has one, names a live
    /// entry of the registry. Every valid sequence of creations and
    /// destructions keeps this for every live session.
    pub open spec fn session_registered(self, data: KimeData) -> bool {
        match data.spec_pe() {
            Some(id) => self.surfaces().contains(id),
            None => true,
        }
    }

    /// A handler with no live surface.
    pub fn new() -> (h: KimeHandler)
        ensures
            h.surfaces() == Set::<u32>::empty(),
            h.wf(),
    {
        let h = KimeHandler { windows: Registry::new() };
        proof {
            assert(h.wf());
        }
        h
    }

    /// Is a surface live under this identity?
    pub fn contains_surface(&self, id: u32) -> (r: bool)
        ensures
            r == self.surfaces().contains(id),
    {
        self.windows.contains(id)
    }

    /// Build the state of a newly negotiated session.
    ///
    /// An inline-callback style needs no surface: the session gets no
    /// surface reference and the registry does not change. A
    /// surface-rendered style takes the identity of the surface the
    /// caller created for this session — fresh, hence not yet registered
    /// — records it in the registry and hands the session its reference.
    /// If surface creation failed, the caller never gets here, so no
    /// partial state is retained.
    pub fn new_ic_data(&mut self, input_style: u32, surface: Option<u32>) -> (data: KimeData)
        requires
            old(self).wf(),
            spec_classify(input_style) == RenderMode::InlineCallback ==> surface is None,
            spec_classify(input_style) == RenderMode::SurfaceRendered ==> (match surface {
                Some(id) => id != 0 && !old(self).surfaces().contains(id),
                None => false,
            }),
        ensures
            final(self).wf(),
            data.wf(),
            data.spec_pe() == surface,
            final(self).session_registered(data),
            spec_classify(input_style) == RenderMode::InlineCallback ==> data.spec_pe() is None
                && final(self).surfaces() == old(self).surfaces(),
            spec_classify(input_style) == RenderMode::SurfaceRendered ==> (match surface {
                Some(id) => data.spec_pe() == surface && final(self).surfaces() == old(
                    self,
                ).surfaces().insert(id),
                None => false,
            }),
    {
        let mode = classify(input_style);
        match mode {
            RenderMode::InlineCallback => KimeData::new(None),
            RenderMode::SurfaceRendered => {
                let id = surface.unwrap();
                self.windows.insert(id);
                KimeData::new(Some(id))
            },
        }
    }

    /// Finish session creation: ask the transport to forward key-press
    /// and key-release events for the session. This is the only place
    /// any handler yields an event-mask action, so it runs exactly once
    /// per session.
    pub fn handle_create_ic(&self) -> (acts: Vec<Action>)
        ensures
            acts@ == spec_create_actions(),
    {
        let mut acts: Vec<Action> = Vec::new();
        acts.push(
            Action::SetEventMask {
                forward: EVENT_MASK_KEY_PRESS | EVENT_MASK_KEY_RELEASE,
                synchronous: 0,
            },
        );
        proof {
            assert(acts@ =~= spec_create_actions());
        }
        acts
    }

    /// Deliver one in-progress character for the session.
    fn preedit(&self, data: &KimeData, input_style: u32, ch: char, acts: &mut Vec<Action>)
        ensures
            final(acts)@ == old(acts)@ + spec_preedit_actions(input_style, data.spec_pe(), ch),
    {
        let mode = classify(input_style);
        match mode {
            RenderMode::InlineCallback => {
                acts.push(Action::DrawPreedit { ch });
            },
            RenderMode::SurfaceRendered => {
                match data.pe() {
                    Some(id) => {
                        acts.push(Action::SurfaceSetPreedit { id, ch });
                    },
                    None => {},
                }
            },
        }
        proof {
            assert(final(acts)@ =~= old(acts)@ + spec_preedit_actions(
                input_style,
                data.spec_pe(),
                ch,
            ));
        }
    }

    /// Deliver one committed character for the session.
    fn commit(&self, ch: char, acts: &mut Vec<Action>)
        ensures
            final(acts)@ == old(acts)@ + spec_commit_actions(ch),
    {
        acts.push(Action::Commit { ch });
        proof {
            assert(final(acts)@ =~= old(acts)@ + spec_commit_actions(ch));
        }
    }

    /// Route one key press the engine has decided on: yield the actions
    /// of the outcome, in order, and whether the key counts as consumed.
    ///
    /// The caller consults the engine only for key-press events (see
    /// [`crate::keyev::key_input`]) and performs the returned actions
    /// before reporting the consumed flag back to the transport.
    pub fn handle_forward_event(
        &self,
        data: &KimeData,
        input_style: u32,
        outcome: InputResult,
    ) -> (r: (Vec<Action>, bool))
        requires
            self.session_registered(*data),
        ensures
            r.0@ == spec_outcome_actions(input_style, data.spec_pe(), outcome),
            r.1 == spec_outcome_consumed(outcome),
    {
        let mut acts: Vec<Action> = Vec::new();
        let consumed = match outcome {
            InputResult::Bypass => false,
            InputResult::Consume => true,
            InputResult::CommitBypass(ch) => {
                self.commit(ch, &mut acts);
                false
            },
            InputResult::Commit(ch) => {
                self.commit(ch, &mut acts);
                true
            },
            InputResult::Preedit(ch) => {
                self.preedit(data, input_style, ch, &mut acts);
                true
            },
            InputResult::CommitPreedit(c, p) => {
                self.preedit(data, input_style, p, &mut acts);
                self.commit(c, &mut acts);
                true
            },
        };
        proof {
            assert(acts@ =~= spec_outcome_actions(input_style, data.spec_pe(), outcome));
        }
        (acts, consumed)
    }

    /// Repaint routing for an exposure notification: the surface to
    /// repaint, if the exposed window is a live surface; `None` — and no
    /// effect at all — for the zero handle or an identity the registry
    /// does not hold, since exposures race with destruction.
    pub fn expose(&self, window: u32) -> (target: Option<u32>)
        ensures
            target == (if window != 0 && self.surfaces().contains(window) {
                Some(window)
            } else {
                None::<u32>
            }),
    {
        if window != 0 && self.windows.contains(window) {
            Some(window)
        } else {
            None
        }
    }

    /// Tear a session down. Where the session owns a surface, its entry
    /// leaves the registry and exactly one surface-teardown action is
    /// yielded; an inline-callback session leaves the registry untouched.
    ///
    /// A surface reference absent from the registry is a lifecycle bug,
    /// excluded by precondition; destroying the same session twice is
    /// therefore not a valid call.
    pub fn handle_destroy_ic(&mut self, data: KimeData) -> (acts: Vec<Action>)
        requires
            old(self).wf(),
            old(self).session_registered(data),
        ensures
            final(self).wf(),
            acts@ == spec_destroy_actions(data.spec_pe()),
            (match data.spec_pe() {
                Some(id) => final(self).surfaces() == old(self).surfaces().remove(id),
                None => final(self).surfaces() == old(self).surfaces(),
            }),
    {
        let mut acts: Vec<Action> = Vec::new();
        match data.pe() {
            Some(id) => {
                let had = self.windows.remove(id);
                proof {
                    assert(had);
                }
                acts.push(Action::SurfaceDestroy { id });
            },
            None => {},
        }
        proof {
            assert(acts@ =~= spec_destroy_actions(data.spec_pe()));
        }
        acts
    }
}

/// Law: the event mask is configured exactly once per session, at
/// creation. Creation's actions hold exactly one event-mask
/// configuration, and neither key routing nor destruction ever yields
/// one, whatever the style, session state or outcome.
pub proof fn lemma_event_mask_once(input_style: u32, pe: Option<u32>, outcome: InputResult)
    ensures
        spec_create_actions().len() == 1,
        spec_create_actions()[0] is SetEventMask,
        forall|i: int| 0 <= i < spec_outcome_actions(input_style, pe, outcome).len()
            ==> !(#[trigger] spec_outcome_actions(input_style, pe, outcome)[i] is SetEventMask),
        forall|i: int| 0 <= i < spec_destroy_actions(pe).len() ==> !(#[trigger] spec_destroy_actions(
            pe,
        )[i] is SetEventMask),
{
}

/// How many event-mask configurations a sequence of actions holds.
pub open spec fn event_mask_count(acts: Seq<Action>) -> int
    decreases acts.len(),
{
    if acts.len() == 0 {
        0
    } else {
        (if acts[0] is SetEventMask {
            1int
        } else {
            0int
        }) + event_mask_count(acts.drop_first())
    }
}

/// The actions of a run of routed key presses, in order.
pub open spec fn spec_routed_actions(
    input_style: u32,
    pe: Option<u32>,
    outcomes: Seq<InputResult>,
) -> Seq<Action>
    decreases outcomes.len(),
{
    if outcomes.len() == 0 {
        Seq::empty()
    } else {
        spec_outcome_actions(input_style, pe, outcomes[0]) + spec_routed_actions(
            input_style,
            pe,
            outcomes.drop_first(),
        )
    }
}

/// Every action a session yields over its whole life: creation, each
/// routed key press in order, then destruction.
pub open spec fn spec_session_actions(
    input_style: u32,
    pe: Option<u32>,
    outcomes: Seq<InputResult>,
) -> Seq<Action> {
    spec_create_actions() + spec_routed_actions(input_style, pe, outcomes)
        + spec_destroy_actions(pe)
}

proof fn lemma_event_mask_count_concat(a: Seq<Action>, b: Seq<Action>)
    ensures
        event_mask_count(a + b) == event_mask_count(a) + event_mask_count(b),
    decreases a.len(),
{
    if a.len() == 0 {
        assert(a + b =~= b);
    } else {
        assert((a + b).drop_first() =~= a.drop_first() + b);
        lemma_event_mask_count_concat(a.drop_first(), b);
    }
}

proof fn lemma_outcome_no_event_mask(input_style: u32, pe: Option<u32>, outcome: InputResult)
    ensures
        event_mask_count(spec_outcome_actions(input_style, pe, outcome)) == 0,
{
    let acts = spec_outcome_actions(input_style, pe, outcome);
    assert forall|i: int| 0 <= i < acts.len() implies !(#[trigger] acts[i] is SetEventMask) by {
        lemma_event_mask_once(input_style, pe, outcome);
    }
    lemma_no_event_mask_zero_count(acts);
}

proof fn lemma_no_event_mask_zero_count(acts: Seq<Action>)
    requires
        forall|i: int| 0 <= i < acts.len() ==> !(#[trigger] acts[i] is SetEventMask),
    ensures
        event_mask_count(acts) == 0,
    decreases acts.len(),
{
    if acts.len() > 0 {
        lemma_no_event_mask_zero_count(acts.drop_first());
    }
}

proof fn lemma_routed_no_event_mask(input_style: u32, pe: Option<u32>, outcomes: Seq<InputResult>)
    ensures
        event_mask_count(spec_routed_actions(input_style, pe, outcomes)) == 0,
    decreases outcomes.len(),
{
    if outcomes.len() > 0 {
        lemma_event_mask_count_concat(
            spec_outcome_actions(input_style, pe, outcomes[0]),
            spec_routed_actions(input_style, pe, outcomes.drop_first()),
        );
        lemma_outcome_no_event_mask(input_style, pe, outcomes[0]);
        lemma_routed_no_event_mask(input_style, pe, outcomes.drop_first());
    }
}

/// Law: over a whole session — creation, any number of routed key
/// presses, destruction — exactly one event-mask configuration is
/// issued, and it is the session's very first action.
pub proof fn lemma_event_mask_once_per_session(
    input_style: u32,
    pe: Option<u32>,
    outcomes: Seq<InputResult>,
)
    ensures
        event_mask_count(spec_session_actions(input_style, pe, outcomes)) == 1,
        spec_session_actions(input_style, pe, outcomes)[0] is SetEventMask,
{
    let create = spec_create_actions();
    let routed = spec_routed_actions(input_style, pe, outcomes);
    let destroy = spec_destroy_actions(pe);
    lemma_event_mask_count_concat(create + routed, destroy);
    lemma_event_mask_count_concat(create, routed);
    lemma_routed_no_event_mask(input_style, pe, outcomes);
    assert(event_mask_count(create) == 1) by {
        assert(create.len() == 1);
        assert(create[0] is SetEventMask);
        assert(create.drop_first().len() == 0);
        assert(event_mask_count(create.drop_first()) == 0);
    }
    assert(event_mask_count(destroy) == 0) by {
        lemma_event_mask_once(input_style, pe, InputResult::Bypass);
        lemma_no_event_mask_zero_count(destroy);
    }
    assert((create + routed + destroy)[0] == create[0]);
}

/// Law: the registry never holds a dangling or duplicate entry under a
/// valid pairing of creation and destruction. Creation registers a fresh
/// identity and destruction removes exactly that entry, so the set of
/// live surfaces returns to where it began; a second removal of the same
/// identity would find no entry, which destruction's precondition
/// forbids.
pub proof fn lemma_registry_round_trip(ids: Set<u32>, id: u32)
    requires
        !ids.contains(id),
    ensures
        ids.insert(id).remove(id) == ids,
        !ids.insert(id).remove(id).contains(id),
{
    assert(ids.insert(id).remove(id) =~= ids);
}

/// Law: a commit-with-preedit outcome delivers the preedit update first
/// and the commit last: its actions are exactly the preedit delivery of
/// the in-progress character followed by one commit of the committed
/// character — never the reverse order.
pub proof fn lemma_commit_preedit_order(input_style: u32, pe: Option<u32>, c: char, p: char)
    ensures
        spec_outcome_actions(input_style, pe, InputResult::CommitPreedit(c, p))
            == spec_preedit_actions(input_style, pe, p) + spec_commit_actions(c),
        spec_outcome_actions(input_style, pe, InputResult::CommitPreedit(c, p)).last() == (
        Action::Commit { ch: c }),
        forall|i: int| 0 <= i < spec_outcome_actions(input_style, pe, InputResult::CommitPreedit(c, p)).len()
            - 1 ==> !(#[trigger] spec_outcome_actions(
            input_style,
            pe,
            InputResult::CommitPreedit(c, p),
        )[i] is Commit),
{
}

} // verus!
