use yew_to_do_app::ToDo;
use yew_to_do_app::ToDosModel;
use yew_to_do_app::ToDosMsg;

#[test]
fn blank_add_changes_nothing() {
    let mut model = ToDosModel::new();
    model.handle_message(ToDosMsg::UpdateToDo("draft".to_string()));

    model.handle_message(ToDosMsg::AddToDo("".to_string()));
    model.handle_message(ToDosMsg::AddToDo("   ".to_string()));

    assert_eq!(model.todos.len(), 0);
    assert_eq!(model.next_id, 0);
    assert_eq!(model.new_todo_text, "draft");
}

#[test]
fn add_stores_trimmed_text() {
    let mut model = ToDosModel::new();

    model.handle_message(ToDosMsg::AddToDo("  Buy milk  ".to_string()));

    assert_eq!(model.todos.len(), 1);
    assert_eq!(model.todos[0].text, "Buy milk");
    assert_eq!(model.new_todo_text, "");
}

#[test]
fn trimming_strips_unicode_white_space() {
    let mut model = ToDosModel::new();

    // A text of white space alone is blank even outside ASCII
    model.handle_message(ToDosMsg::AddToDo("\u{00A0}\u{2003}\u{3000}".to_string()));
    assert_eq!(model.todos.len(), 0);

    model.handle_message(ToDosMsg::AddToDo("\t\u{00A0} milk \u{3000}\n".to_string()));
    assert_eq!(model.todos[0].text, "milk");
}

#[test]
fn non_blank_adds_number_entries_in_call_order() {
    let mut model = ToDosModel::new();

    model.handle_message(ToDosMsg::AddToDo("One".to_string()));
    model.handle_message(ToDosMsg::AddToDo("".to_string()));
    model.handle_message(ToDosMsg::AddToDo("Two".to_string()));
    model.handle_message(ToDosMsg::AddToDo("   ".to_string()));
    model.handle_message(ToDosMsg::AddToDo("Three".to_string()));

    assert_eq!(model.todos.len(), 3);
    assert_eq!(model.todos[0].id, 0);
    assert_eq!(model.todos[1].id, 1);
    assert_eq!(model.todos[2].id, 2);
    assert_eq!(model.next_id, 3);
}

#[test]
fn toggle_missing_id_changes_nothing() {
    let mut model = ToDosModel::new();
    model.handle_message(ToDosMsg::AddToDo("First".to_string()));
    model.handle_message(ToDosMsg::AddToDo("Second".to_string()));
    let before: Vec<ToDo> = model.todos.clone();

    model.handle_message(ToDosMsg::ToggleToDo(99));

    assert_eq!(model.todos, before);
    assert_eq!(model.next_id, 2);
}

#[test]
fn remove_missing_id_changes_nothing() {
    let mut model = ToDosModel::new();
    model.handle_message(ToDosMsg::AddToDo("First".to_string()));
    model.handle_message(ToDosMsg::AddToDo("Second".to_string()));
    let before: Vec<ToDo> = model.todos.clone();

    model.handle_message(ToDosMsg::RemoveToDo(99));

    assert_eq!(model.todos, before);
    assert_eq!(model.next_id, 2);
}

#[test]
fn remove_keeps_relative_order() {
    let mut model = ToDosModel::new();
    model.handle_message(ToDosMsg::AddToDo("First".to_string()));
    model.handle_message(ToDosMsg::AddToDo("Second".to_string()));
    model.handle_message(ToDosMsg::AddToDo("Third".to_string()));

    model.handle_message(ToDosMsg::RemoveToDo(1));

    assert_eq!(model.todos.len(), 2);
    assert_eq!(model.todos[0].text, "First");
    assert_eq!(model.todos[0].id, 0);
    assert_eq!(model.todos[1].text, "Third");
    assert_eq!(model.todos[1].id, 2);
}

#[test]
fn removed_id_is_never_reused() {
    let mut model = ToDosModel::new();
    model.handle_message(ToDosMsg::AddToDo("First".to_string()));
    model.handle_message(ToDosMsg::AddToDo("Second".to_string()));
    model.handle_message(ToDosMsg::RemoveToDo(0));

    model.handle_message(ToDosMsg::AddToDo("Third".to_string()));

    assert_eq!(model.todos.len(), 2);
    assert_eq!(model.todos[0].id, 1);
    assert_eq!(model.todos[1].id, 2);
    assert_eq!(model.next_id, 3);
}

#[test]
fn toggle_twice_restores_two_entry_list() {
    let mut model = ToDosModel::new();
    model.handle_message(ToDosMsg::AddToDo("First".to_string()));
    model.handle_message(ToDosMsg::AddToDo("Second".to_string()));
    model.handle_message(ToDosMsg::ToggleToDo(1));
    let before: Vec<ToDo> = model.todos.clone();

    model.handle_message(ToDosMsg::ToggleToDo(0));
    model.handle_message(ToDosMsg::ToggleToDo(0));

    assert_eq!(model.todos, before);
}

#[test]
fn update_replaces_pending_text() {
    let mut model = ToDosModel::new();

    model.handle_message(ToDosMsg::UpdateToDo("What needs".to_string()));
    model.handle_message(ToDosMsg::UpdateToDo("What needs doing".to_string()));

    assert_eq!(model.new_todo_text, "What needs doing");
    assert_eq!(model.todos.len(), 0);
    assert_eq!(model.next_id, 0);
}

#[test]
fn add_takes_its_argument_not_the_buffer() {
    let mut model = ToDosModel::new();
    model.handle_message(ToDosMsg::UpdateToDo("buffered".to_string()));

    model.handle_message(ToDosMsg::AddToDo("submitted".to_string()));

    assert_eq!(model.todos[0].text, "submitted");
    assert_eq!(model.new_todo_text, "");
}
