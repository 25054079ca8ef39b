use gomp::builder::Assigned;
use gomp::builder::No;
use gomp::builder::NotAssigned;
use gomp::builder::ToAssign;
use gomp::builder::Yes;

fn only_assigned<T: Assigned>(_marker: T) {}

fn only_not_assigned<T: NotAssigned>(_marker: T) {}

fn any_marker<T: ToAssign>(_marker: T) {}

#[test]
fn markers_implement_their_traits() {
    only_assigned(Yes);
    only_not_assigned(No);
    any_marker(Yes);
    any_marker(No);
}

#[test]
fn markers_have_defaults() {
    let yes: Yes = Default::default();
    let no: No = Default::default();
    assert_eq!(format!("{:?}", yes), "Yes");
    assert_eq!(format!("{:?}", no), "No");
}
