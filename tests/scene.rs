use srt::scene::scene::{camera_position, select_camera};

fn names(list: &[&str]) -> Vec<String> {
    list.iter().map(|s| String::from(*s)).collect()
}

#[test]
fn finds_a_camera_by_name() {
    let cameras = names(&["main", "vantage"]);
    assert_eq!(camera_position(&cameras, &String::from("main")), Some(0));
    assert_eq!(camera_position(&cameras, &String::from("vantage")), Some(1));
}

#[test]
fn finds_the_first_of_equal_names() {
    let cameras = names(&["side", "main", "main"]);
    assert_eq!(camera_position(&cameras, &String::from("main")), Some(1));
}

#[test]
fn missing_camera_is_none() {
    let cameras = names(&["main"]);
    assert_eq!(camera_position(&cameras, &String::from("Main")), None);
    assert_eq!(camera_position(&names(&[]), &String::from("main")), None);
}

#[test]
fn select_camera_reports_a_missing_name() {
    let cameras = names(&["main", "vantage"]);
    assert_eq!(select_camera(&cameras, &String::from("vantage")), Ok(1));
    assert_eq!(
        select_camera(&cameras, &String::from("top")),
        Err(String::from("Camera top not found"))
    );
    assert_eq!(
        select_camera(&names(&[]), &String::from("main")),
        Err(String::from("Camera main not found"))
    );
}
