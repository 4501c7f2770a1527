use todo_rs::status::Status;

#[test]
fn change_gives_the_other_status() {
    assert_eq!(Status::Todo.change(), Status::Done);
    assert_eq!(Status::Done.change(), Status::Todo);
}

#[test]
fn change_twice_gives_the_same_status() {
    assert_eq!(Status::Todo.change().change(), Status::Todo);
    assert_eq!(Status::Done.change().change(), Status::Done);
}
