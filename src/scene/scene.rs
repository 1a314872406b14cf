use vstd::prelude::*;

verus! {

/// `i` is the first position in `names` that holds `name`.
pub open spec fn is_first_with_name(names: Seq<String>, name: Seq<char>, i: int) -> bool {
    &&& 0 <= i < names.len()
    &&& names[i]@ == name
    &&& forall|j: int| 0 <= j < i ==> #[trigger] names[j]@ != name
}

/// Some camera in `names` is called `name`.
pub open spec fn has_name(names: Seq<String>, name: Seq<char>) -> bool {
    exists|i: int| 0 <= i < names.len() && #[trigger] names[i]@ == name
}

/// The message that reports a camera missing from a scene.
pub open spec fn missing_camera_message(name: Seq<char>) -> Seq<char> {
    "Camera "@ + name + " not found"@
}

/// Looks a camera up by name among the names of a scene's cameras, in order: the
/// position of the first one called `name`, or `None` when none is.
pub fn camera_position(names: &Vec<String>, name: &String) -> (r: Option<usize>)
    ensures
        r is None <==> !has_name(names@, name@),
        r matches Some(i) ==> is_first_with_name(names@, name@, i as int),
{
    let mut i: usize = 0;
    while i < names.len()
        invariant
            0 <= i <= names.len(),
            forall|j: int| 0 <= j < i ==> #[trigger] names@[j]@ != name@,
        decreases names.len() - i,
    {
        if names[i] == *name {
            return Some(i);
        }
        i = i + 1;
    }
    None
}

/// The camera a render asks for: its position among the scene's camera names, or an
/// error that names it when the scene has no camera of that name.
pub fn select_camera(names: &Vec<String>, name: &String) -> (r: Result<usize, String>)
    ensures
        r is Err <==> !has_name(names@, name@),
        r matches Ok(i) ==> is_first_with_name(names@, name@, i as int),
        r matches Err(e) ==> e@ == missing_camera_message(name@),
{
    match camera_position(names, name) {
        Some(i) => Ok(i),
        None => {
            let mut message = String::from_str("Camera ");
            message.append(name.as_str());
            message.append(" not found");
            Err(message)
        },
    }
}

} // verus!
