use todo_list::todo::{
    add_task, complete_task, delete_task, edit_task, find_task, largest_id, next_task_id, Todo,
};

fn todo(id: u32, task: &str, completed: bool) -> Todo {
    Todo { id, task: task.to_string(), completed }
}

fn three() -> Vec<Todo> {
    vec![todo(1, "one", false), todo(2, "two", false), todo(3, "three", true)]
}

#[test]
fn first_task_gets_id_one() {
    let mut todos: Vec<Todo> = Vec::new();
    let id = add_task(&mut todos, "buy milk".to_string());
    assert_eq!(id, 1);
    assert_eq!(todos, vec![todo(1, "buy milk", false)]);
}

#[test]
fn kth_added_task_gets_id_k() {
    let mut todos: Vec<Todo> = Vec::new();
    for k in 1..=25u32 {
        let id = add_task(&mut todos, format!("task {}", k));
        assert_eq!(id, k);
    }
    assert_eq!(todos.len(), 25);
    for (index, t) in todos.iter().enumerate() {
        assert_eq!(t.id as usize, index + 1);
        assert_eq!(t.task, format!("task {}", index + 1));
        assert!(!t.completed);
    }
}

#[test]
fn add_after_deleting_two_of_three_gives_four() {
    let mut todos = three();
    assert!(delete_task(&mut todos, 2));
    let id = add_task(&mut todos, "four".to_string());
    assert_eq!(id, 4);
    assert_eq!(
        todos,
        vec![todo(1, "one", false), todo(3, "three", true), todo(4, "four", false)]
    );
}

#[test]
fn add_after_deleting_the_largest_takes_its_id_again() {
    let mut todos = three();
    assert!(delete_task(&mut todos, 3));
    assert_eq!(add_task(&mut todos, "again".to_string()), 3);
}

#[test]
fn add_goes_by_the_largest_id_not_the_length() {
    let mut todos = vec![todo(10, "ten", false), todo(4, "four", false)];
    assert_eq!(largest_id(&todos), 10);
    assert_eq!(add_task(&mut todos, "next".to_string()), 11);
    assert_eq!(todos[2], todo(11, "next", false));
}

#[test]
fn largest_id_of_nothing_is_zero() {
    assert_eq!(largest_id(&Vec::new()), 0);
    assert_eq!(next_task_id(&Vec::new()), Some(1));
}

#[test]
fn next_task_id_is_none_at_the_limit() {
    let todos = vec![todo(u32::MAX, "last", false)];
    assert_eq!(next_task_id(&todos), None);
    let todos = vec![todo(u32::MAX - 1, "last but one", false)];
    assert_eq!(next_task_id(&todos), Some(u32::MAX));
}

#[test]
fn empty_description_is_accepted() {
    let mut todos: Vec<Todo> = Vec::new();
    assert_eq!(add_task(&mut todos, String::new()), 1);
    assert_eq!(todos, vec![todo(1, "", false)]);
}

#[test]
fn find_gives_the_first_index() {
    let todos = three();
    assert_eq!(find_task(&todos, 1), Some(0));
    assert_eq!(find_task(&todos, 3), Some(2));
    assert_eq!(find_task(&todos, 99), None);
    let doubled = vec![todo(7, "a", false), todo(5, "b", false), todo(5, "c", false)];
    assert_eq!(find_task(&doubled, 5), Some(1));
}

#[test]
fn edit_replaces_the_description_only() {
    let mut todos = three();
    assert_eq!(edit_task(&mut todos, 3, "drei".to_string()), Some(2));
    assert_eq!(
        todos,
        vec![todo(1, "one", false), todo(2, "two", false), todo(3, "drei", true)]
    );
}

#[test]
fn edit_of_a_missing_id_changes_nothing() {
    let mut todos = three();
    assert_eq!(edit_task(&mut todos, 99, "x".to_string()), None);
    assert_eq!(todos, three());
}

#[test]
fn complete_sets_the_flag_only() {
    let mut todos = three();
    assert_eq!(complete_task(&mut todos, 2), Some(1));
    assert_eq!(
        todos,
        vec![todo(1, "one", false), todo(2, "two", true), todo(3, "three", true)]
    );
    assert_eq!(complete_task(&mut todos, 2), Some(1));
    assert!(todos[1].completed);
}

#[test]
fn complete_99_of_a_collection_without_it_changes_nothing() {
    let mut todos = three();
    assert_eq!(complete_task(&mut todos, 99), None);
    assert_eq!(todos, three());
}

#[test]
fn edit_and_complete_take_the_first_of_two_with_one_id() {
    let mut todos = vec![todo(5, "a", false), todo(5, "b", false)];
    assert_eq!(complete_task(&mut todos, 5), Some(0));
    assert_eq!(edit_task(&mut todos, 5, "c".to_string()), Some(0));
    assert_eq!(todos, vec![todo(5, "c", true), todo(5, "b", false)]);
}

#[test]
fn delete_of_an_existing_id_shrinks_by_one() {
    let mut todos = three();
    assert!(delete_task(&mut todos, 1));
    assert_eq!(todos.len(), 2);
    assert_eq!(todos, vec![todo(2, "two", false), todo(3, "three", true)]);
}

#[test]
fn delete_does_not_shift_the_other_ids() {
    let mut todos = three();
    assert!(delete_task(&mut todos, 2));
    assert_eq!(todos[0].id, 1);
    assert_eq!(todos[1].id, 3);
}

#[test]
fn delete_of_a_missing_id_leaves_the_length() {
    let mut todos = three();
    assert!(!delete_task(&mut todos, 99));
    assert_eq!(todos, three());
    let mut none: Vec<Todo> = Vec::new();
    assert!(!delete_task(&mut none, 1));
    assert!(none.is_empty());
}

#[test]
fn delete_takes_every_task_with_the_id() {
    let mut todos = vec![
        todo(5, "a", false),
        todo(1, "b", false),
        todo(5, "c", true),
        todo(5, "d", false),
        todo(2, "e", false),
    ];
    assert!(delete_task(&mut todos, 5));
    assert_eq!(todos, vec![todo(1, "b", false), todo(2, "e", false)]);
}

#[test]
fn delete_of_the_only_task_leaves_nothing() {
    let mut todos = vec![todo(1, "buy milk", true)];
    assert!(delete_task(&mut todos, 1));
    assert!(todos.is_empty());
}
