use agent_bridge::sink::CallbackIO;
use agent_bridge::sink::NoteIO;

#[test]
fn chunk_plan_splits_on_character_boundaries() {
    let sink = NoteIO::new("/tmp/res", String::from("id1"), false, Some(4)).unwrap();
    let plan = sink.write("héllo wörld");
    assert_eq!(plan, vec![
        String::from("héll"),
        String::from("o wö"),
        String::from("rld")
    ]);
    let joined: String = plan.concat();
    assert_eq!(joined, "héllo wörld");
}

#[test]
fn chunk_plan_size_one() {
    let sink = NoteIO::new("/tmp/res", String::from("id1"), false, Some(1)).unwrap();
    let plan = sink.write("aé😀");
    assert_eq!(plan, vec![
        String::from("a"),
        String::from("é"),
        String::from("😀")
    ]);
}

#[test]
fn chunk_plan_without_maximum_is_one_piece() {
    let sink = NoteIO::new("/tmp/res", String::from("id1"), false, None).unwrap();
    let plan = sink.write("whole content");
    assert_eq!(plan, vec![String::from("whole content")]);
}

#[test]
fn chunk_plan_empty_content() {
    let with_max = NoteIO::new("/tmp/res", String::from("id1"), false, Some(8)).unwrap();
    assert_eq!(with_max.write(""), Vec::<String>::new());
    let without_max = NoteIO::new("/tmp/res", String::from("id1"), false, None).unwrap();
    assert_eq!(without_max.write(""), vec![String::from("")]);
}

#[test]
fn chunk_plan_exact_multiple() {
    let sink = NoteIO::new("/tmp/res", String::from("id1"), false, Some(2)).unwrap();
    assert_eq!(sink.write("abcd"), vec![String::from("ab"), String::from("cd")]);
}

#[test]
fn buffering_sink_accumulates_writes() {
    let mut sink = CallbackIO::new(String::from("id2"), false, Some(3)).unwrap();
    sink.write("one ");
    sink.write("two ");
    sink.write("three");
    assert_eq!(sink.read().unwrap(), "one two three");
    assert_eq!(sink.content(), "one two three");
}

#[test]
fn buffering_sink_accumulates_regardless_of_chunking() {
    let mut chunked = CallbackIO::new(String::from("a"), false, Some(1)).unwrap();
    let mut plain = CallbackIO::new(String::from("b"), false, None).unwrap();
    chunked.write("héllo");
    plain.write("héllo");
    assert_eq!(chunked.read().unwrap(), plain.read().unwrap());
}

#[test]
fn buffering_sink_clear_empties_accumulator() {
    let mut sink = CallbackIO::new(String::from("id3"), false, None).unwrap();
    sink.write("data");
    assert!(sink.clear().is_ok());
    assert_eq!(sink.read().unwrap(), "");
}

#[test]
fn write_status_without_callback_is_silent_success() {
    let note = NoteIO::new("/tmp/res", String::from("id4"), false, None).unwrap();
    assert_eq!(note.write_status("{\"phase\":\"done\"}"), None);
    let cb = CallbackIO::new(String::from("id5"), false, None).unwrap();
    assert_eq!(cb.write_status("{\"phase\":\"done\"}"), None);
}

#[test]
fn write_status_with_callback_dispatches_payload() {
    let note = NoteIO::new("/tmp/res", String::from("id6"), true, None).unwrap();
    assert_eq!(
        note.write_status("{\"phase\":\"done\"}"),
        Some(String::from("{\"phase\":\"done\"}"))
    );
    let cb = CallbackIO::new(String::from("id7"), true, None).unwrap();
    assert_eq!(
        cb.write_status("{\"phase\":\"done\"}"),
        Some(String::from("{\"phase\":\"done\"}"))
    );
}

#[test]
fn note_sink_clear_is_a_no_op_success() {
    let note = NoteIO::new("/tmp/res", String::from("id8"), false, None).unwrap();
    assert!(note.clear().is_ok());
}

#[test]
fn sink_ids_are_kept() {
    let note = NoteIO::new("/tmp/res", String::from("note-id"), false, None).unwrap();
    assert_eq!(note.get_id(), "note-id");
    let cb = CallbackIO::new(String::from("cb-id"), false, None).unwrap();
    assert_eq!(cb.get_id(), "cb-id");
}
