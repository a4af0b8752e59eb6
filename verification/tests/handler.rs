use kime_xim::action::Action;
use kime_xim::action::EVENT_MASK_KEY_PRESS;
use kime_xim::action::EVENT_MASK_KEY_RELEASE;
use kime_xim::handler::KimeHandler;
use kime_xim::keyev::KeyEventInput;
use kime_xim::keyev::KeyInput;
use kime_xim::keyev::key_input;
use kime_xim::outcome::InputResult;
use kime_xim::style::RenderMode;
use kime_xim::style::classify;
use kime_xim::style::input_styles;
use kime_xim::style::PREEDIT_CALLBACKS;
use kime_xim::style::PREEDIT_NOTHING;
use kime_xim::style::PREEDIT_POSITION;
use kime_xim::style::STATUS_AREA;
use kime_xim::style::STATUS_NONE;
use kime_xim::style::STATUS_NOTHING;

const SURFACE_STYLE: u32 = PREEDIT_POSITION | STATUS_NOTHING;
const INLINE_STYLE: u32 = PREEDIT_CALLBACKS | STATUS_NOTHING;

#[test]
fn style_table_has_seven_advertised_entries() {
    let table = input_styles();
    assert_eq!(
        table,
        vec![
            PREEDIT_NOTHING,
            PREEDIT_POSITION | STATUS_AREA,
            PREEDIT_POSITION | STATUS_NOTHING,
            PREEDIT_POSITION | STATUS_NONE,
            PREEDIT_CALLBACKS | STATUS_AREA,
            PREEDIT_CALLBACKS | STATUS_NOTHING,
            PREEDIT_CALLBACKS | STATUS_NONE,
        ]
    );
}

#[test]
fn classify_answers_inline_exactly_on_callback_styles() {
    let table = input_styles();
    for (i, style) in table.iter().enumerate() {
        let expected = if style & PREEDIT_CALLBACKS == PREEDIT_CALLBACKS {
            RenderMode::InlineCallback
        } else {
            RenderMode::SurfaceRendered
        };
        assert_eq!(classify(*style), expected, "entry {}", i);
    }
    assert_eq!(classify(table[0]), RenderMode::SurfaceRendered);
    assert_eq!(classify(table[1]), RenderMode::SurfaceRendered);
    assert_eq!(classify(table[2]), RenderMode::SurfaceRendered);
    assert_eq!(classify(table[3]), RenderMode::SurfaceRendered);
    assert_eq!(classify(table[4]), RenderMode::InlineCallback);
    assert_eq!(classify(table[5]), RenderMode::InlineCallback);
    assert_eq!(classify(table[6]), RenderMode::InlineCallback);
}

#[test]
fn surface_session_gets_registered_surface() {
    let mut handler = KimeHandler::new();
    let data = handler.new_ic_data(SURFACE_STYLE, Some(11));
    assert_eq!(data.pe(), Some(11));
    assert!(handler.contains_surface(11));
}

#[test]
fn inline_session_gets_no_surface() {
    let mut handler = KimeHandler::new();
    let data = handler.new_ic_data(INLINE_STYLE, None);
    assert_eq!(data.pe(), None);
    assert!(!handler.contains_surface(11));
}

#[test]
fn create_sets_event_mask_exactly_once() {
    let handler = KimeHandler::new();
    let acts = handler.handle_create_ic();
    assert_eq!(
        acts,
        vec![Action::SetEventMask {
            forward: EVENT_MASK_KEY_PRESS | EVENT_MASK_KEY_RELEASE,
            synchronous: 0,
        }]
    );
}

#[test]
fn no_event_mask_outside_creation() {
    let mut handler = KimeHandler::new();
    let data = handler.new_ic_data(SURFACE_STYLE, Some(5));
    let outcomes = [
        InputResult::Bypass,
        InputResult::Consume,
        InputResult::CommitBypass('x'),
        InputResult::Commit('x'),
        InputResult::Preedit('x'),
        InputResult::CommitPreedit('x', 'y'),
    ];
    for outcome in outcomes {
        let (acts, _) = handler.handle_forward_event(&data, SURFACE_STYLE, outcome);
        assert!(acts
            .iter()
            .all(|a| !matches!(a, Action::SetEventMask { .. })));
    }
    let acts = handler.handle_destroy_ic(data);
    assert!(acts
        .iter()
        .all(|a| !matches!(a, Action::SetEventMask { .. })));
}

#[test]
fn whole_session_configures_event_mask_exactly_once() {
    let mut handler = KimeHandler::new();
    let data = handler.new_ic_data(SURFACE_STYLE, Some(17));
    let mut all: Vec<Action> = handler.handle_create_ic();
    for outcome in [
        InputResult::Preedit('x'),
        InputResult::CommitPreedit('y', 'z'),
        InputResult::Bypass,
        InputResult::Commit('w'),
    ] {
        let (acts, _) = handler.handle_forward_event(&data, SURFACE_STYLE, outcome);
        all.extend(acts);
    }
    all.extend(handler.handle_destroy_ic(data));
    let masks = all
        .iter()
        .filter(|a| matches!(a, Action::SetEventMask { .. }))
        .count();
    assert_eq!(masks, 1);
    assert!(matches!(all[0], Action::SetEventMask { .. }));
}

#[test]
fn bypass_and_consume_have_no_actions() {
    let mut handler = KimeHandler::new();
    let data = handler.new_ic_data(INLINE_STYLE, None);
    let (acts, consumed) = handler.handle_forward_event(&data, INLINE_STYLE, InputResult::Bypass);
    assert!(acts.is_empty());
    assert!(!consumed);
    let (acts, consumed) = handler.handle_forward_event(&data, INLINE_STYLE, InputResult::Consume);
    assert!(acts.is_empty());
    assert!(consumed);
}

#[test]
fn commit_outcome_commits_and_consumes() {
    let mut handler = KimeHandler::new();
    let data = handler.new_ic_data(INLINE_STYLE, None);
    let (acts, consumed) = handler.handle_forward_event(&data, INLINE_STYLE, InputResult::Commit('q'));
    assert_eq!(acts, vec![Action::Commit { ch: 'q' }]);
    assert!(consumed);
}

#[test]
fn commit_preedit_orders_preedit_before_commit() {
    let mut handler = KimeHandler::new();
    let data = handler.new_ic_data(SURFACE_STYLE, Some(21));
    let (acts, consumed) =
        handler.handle_forward_event(&data, SURFACE_STYLE, InputResult::CommitPreedit('a', 'b'));
    assert_eq!(
        acts,
        vec![
            Action::SurfaceSetPreedit { id: 21, ch: 'b' },
            Action::Commit { ch: 'a' },
        ]
    );
    assert!(consumed);

    let data_inline = handler.new_ic_data(INLINE_STYLE, None);
    let (acts, consumed) =
        handler.handle_forward_event(&data_inline, INLINE_STYLE, InputResult::CommitPreedit('a', 'b'));
    assert_eq!(
        acts,
        vec![Action::DrawPreedit { ch: 'b' }, Action::Commit { ch: 'a' }]
    );
    assert!(consumed);
}

#[test]
fn destroy_removes_surface_and_tears_it_down_once() {
    let mut handler = KimeHandler::new();
    let data = handler.new_ic_data(SURFACE_STYLE, Some(31));
    assert!(handler.contains_surface(31));
    let acts = handler.handle_destroy_ic(data);
    assert_eq!(acts, vec![Action::SurfaceDestroy { id: 31 }]);
    assert!(!handler.contains_surface(31));
}

#[test]
fn destroy_of_inline_session_leaves_registry_alone() {
    let mut handler = KimeHandler::new();
    let keeper = handler.new_ic_data(SURFACE_STYLE, Some(41));
    let data = handler.new_ic_data(INLINE_STYLE, None);
    let acts = handler.handle_destroy_ic(data);
    assert!(acts.is_empty());
    assert!(handler.contains_surface(41));
    let _ = handler.handle_destroy_ic(keeper);
    assert!(!handler.contains_surface(41));
}

#[test]
fn expose_of_unknown_identity_is_a_no_op() {
    let mut handler = KimeHandler::new();
    assert_eq!(handler.expose(42), None);
    assert_eq!(handler.expose(0), None);
    let data = handler.new_ic_data(SURFACE_STYLE, Some(42));
    assert_eq!(handler.expose(42), Some(42));
    let _ = handler.handle_destroy_ic(data);
    assert_eq!(handler.expose(42), None);
}

#[test]
fn scenario_preedit_on_surface_session() {
    let mut handler = KimeHandler::new();
    let data = handler.new_ic_data(SURFACE_STYLE, Some(7));
    let (acts, consumed) =
        handler.handle_forward_event(&data, SURFACE_STYLE, InputResult::Preedit('ㄱ'));
    assert_eq!(acts, vec![Action::SurfaceSetPreedit { id: 7, ch: 'ㄱ' }]);
    assert!(acts.iter().all(|a| !matches!(a, Action::Commit { .. })));
    assert!(consumed);
}

#[test]
fn scenario_commit_bypass_on_inline_session() {
    let mut handler = KimeHandler::new();
    let data = handler.new_ic_data(INLINE_STYLE, None);
    let (acts, consumed) =
        handler.handle_forward_event(&data, INLINE_STYLE, InputResult::CommitBypass('A'));
    assert_eq!(acts, vec![Action::Commit { ch: 'A' }]);
    assert!(!consumed);
}

#[test]
fn only_key_presses_reach_the_engine() {
    let press = KeyEventInput {
        response_type: 2,
        detail: 52,
        state: 5,
    };
    assert_eq!(
        key_input(&press),
        Some(KeyInput {
            key_code: 52,
            shift: true,
            ctrl: true,
        })
    );
    let plain = KeyEventInput {
        response_type: 2,
        detail: 38,
        state: 0,
    };
    assert_eq!(
        key_input(&plain),
        Some(KeyInput {
            key_code: 38,
            shift: false,
            ctrl: false,
        })
    );
    let release = KeyEventInput {
        response_type: 3,
        detail: 52,
        state: 1,
    };
    assert_eq!(key_input(&release), None);
}
