use patrol::is_first_admin_registered::is_first_admin_registered;
use patrol::models::users_roles;

fn admin(name: &str) -> users_roles::Model {
    users_roles::Model { user_username: name.to_string(), role_title: "admin".to_string() }
}

#[test]
fn without_admins_the_next_user_becomes_admin() {
    let state = is_first_admin_registered(&Vec::new());
    assert!(!state.is_registered());
    assert!(state.new_user_is_admin());
}

#[test]
fn with_an_admin_nobody_else_becomes_admin() {
    let state = is_first_admin_registered(&vec![admin("ada")]);
    assert!(state.is_registered());
    assert!(!state.new_user_is_admin());
}

#[test]
fn only_one_of_a_run_of_registrations_becomes_admin() {
    let mut state = is_first_admin_registered(&Vec::new());
    let mut admins = 0;
    for stored in [false, true, true, true] {
        let granted = state.claim_admin();
        if stored {
            if granted {
                admins += 1;
            }
        } else {
            state.release_admin(granted);
        }
    }
    assert_eq!(admins, 1);
    assert!(state.is_registered());
}

#[test]
fn a_failed_registration_gives_the_claim_back() {
    let mut state = is_first_admin_registered(&Vec::new());
    let granted = state.claim_admin();
    assert!(granted);
    assert!(state.is_registered());
    state.release_admin(granted);
    assert!(!state.is_registered());
    assert!(state.new_user_is_admin());
}

#[test]
fn a_claim_while_registered_grants_nothing() {
    let mut state = is_first_admin_registered(&vec![admin("ada")]);
    let granted = state.claim_admin();
    assert!(!granted);
    state.release_admin(granted);
    assert!(state.is_registered());
}
