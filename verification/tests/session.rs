use robbie::config::Title;
use robbie::dialog::{Dialog, Role};
use robbie::reader::{LineReader, Step, TermEvent, TermFlags};
use robbie::session::{join_fragments, pick_model};

#[test]
fn join_of_no_fragments_is_empty() {
    let parts: Vec<String> = Vec::new();
    assert_eq!(join_fragments(&parts), "");
}

#[test]
fn join_appends_one_space_after_each_fragment() {
    let parts = vec!["Hello".to_string(), "there".to_string()];
    assert_eq!(join_fragments(&parts), "Hello there ");
}

#[test]
fn join_keeps_single_fragment_with_trailing_space() {
    let parts = vec!["only".to_string()];
    assert_eq!(join_fragments(&parts), "only ");
}

#[test]
fn pick_model_takes_first_entry() {
    let ids = vec!["m1".to_string(), "m2".to_string()];
    assert_eq!(pick_model(&ids), Some("m1".to_string()));
}

#[test]
fn pick_model_on_empty_listing_is_none() {
    let ids: Vec<String> = Vec::new();
    assert_eq!(pick_model(&ids), None);
}

#[test]
fn title_keeps_its_name() {
    let t = Title::new("robbie".to_string());
    assert_eq!(t.name(), "robbie");
}

// One round of the session, with the collaborators replayed: one available
// model "m1", the user types "hi" then Enter, and the endpoint returns the
// fragments ["Hello", "there"].
#[test]
fn one_round_end_to_end() {
    let ids = vec!["m1".to_string()];
    let model = pick_model(&ids).expect("a model is available");
    assert_eq!(model, "m1");

    let mut dialog = Dialog::new("primary_thread".to_string());
    dialog.add(Role::System, "You are a helpful assistant.".to_string());

    let mut r = LineReader::start(TermFlags { raw: false, paste: false });
    r.on_event(TermEvent::Key('h'));
    r.on_event(TermEvent::Key('i'));
    assert!(matches!(r.on_event(TermEvent::Enter), Step::Complete));
    assert_eq!(r.flags(), TermFlags { raw: false, paste: false });
    assert!(r.is_done());
    let user_content = r.take_line();
    dialog.add(Role::User, user_content);

    let prompt = dialog.format();
    assert!(prompt.starts_with("<|begin_of_text|>\n"));
    assert!(prompt.ends_with("<|start_header_id|>Assistant<|end_header_id|>\n\n"));

    let fragments = vec!["Hello".to_string(), "there".to_string()];
    let reply = join_fragments(&fragments);
    assert_eq!(reply, "Hello there ");
    dialog.add(Role::Assistant, reply);

    let turns = dialog.turns_of();
    assert_eq!(turns.len(), 3);
    assert_eq!(turns[1].role, Role::User);
    assert_eq!(turns[1].content, "hi\n");
    assert_eq!(turns[2].role, Role::Assistant);
    assert_eq!(turns[2].content, "Hello there ");
}
