use pihole_group_man::api::PiHoleV6Client;
use pihole_group_man::data::{AuthResponse, ClientResult, ClientsResponse, GroupResult, GroupsResponse};
use pihole_group_man::request::decode_response;
use pihole_group_man::toggle::{
    find_client, plan_client_update, plan_toggle, position_of, select_group, ToggleError, ToggleOp,
};

fn client(id: u8, comment: &str, groups: Vec<u8>) -> ClientResult {
    ClientResult {
        client: String::from("aa:bb:cc:dd:ee:ff"),
        name: String::from("device"),
        comment: String::from(comment),
        groups,
        id,
        date_added: 0,
        date_modified: 0,
        processed: None,
    }
}

fn group(id: u8, name: &str) -> GroupResult {
    GroupResult {
        name: String::from(name),
        comment: None,
        enabled: true,
        id,
        date_added: 0,
        date_modified: 0,
    }
}

#[test]
fn fire_tv_cube_joins_unresolved_once() {
    let groups = GroupsResponse { groups: vec![group(42, "Unresolved")] };
    let gid = select_group(&groups, "Unresolved").unwrap();
    assert_eq!(gid, 42);

    let clients = ClientsResponse { clients: vec![client(17, "Fire TV cube", vec![])] };
    let update = plan_client_update(ToggleOp::Add, gid, &clients, "Fire TV cube").unwrap().unwrap();
    assert_eq!(update.client_id, "17");
    assert_eq!(update.comment, "Fire TV cube");
    assert_eq!(update.groups, vec![42]);

    let clients = ClientsResponse { clients: vec![client(17, "Fire TV cube", update.groups.clone())] };
    let again = plan_client_update(ToggleOp::Add, gid, &clients, "Fire TV cube").unwrap();
    assert!(again.is_none());
    assert_eq!(clients.clients[0].groups, vec![42]);
}

#[test]
fn planned_update_becomes_a_full_replace_request() {
    let mut api = PiHoleV6Client::new("pi.hole");
    let login = r#"{"session":{"valid":true,"totp":false,"sid":"s","csrf":"c","validity":1,"message":"ok"},"took":0}"#;
    api.complete_login(decode_response::<AuthResponse>(200, login)).unwrap();
    let clients = ClientsResponse { clients: vec![client(17, "Fire TV cube", vec![3])] };
    let u = plan_client_update(ToggleOp::Add, 42, &clients, "Fire TV cube").unwrap().unwrap();
    let req = api.update_client(&u.client_id, u.comment, u.groups).unwrap();
    assert_eq!(req.url, "http://pi.hole/api/clients/17");
    assert_eq!(req.body.as_deref(), Some(r#"{"comment":"Fire TV cube","groups":[3,42]}"#));
}

#[test]
fn remove_of_absent_group_is_unchanged() {
    let clients = ClientsResponse { clients: vec![client(17, "tv", vec![1, 2])] };
    assert!(plan_client_update(ToggleOp::Remove, 42, &clients, "tv").unwrap().is_none());
}

#[test]
fn add_of_present_group_is_unchanged() {
    let clients = ClientsResponse { clients: vec![client(17, "tv", vec![1, 42])] };
    assert!(plan_client_update(ToggleOp::Add, 42, &clients, "tv").unwrap().is_none());
}

#[test]
fn remove_takes_out_the_first_occurrence_only() {
    assert_eq!(plan_toggle(ToggleOp::Remove, &vec![42, 7, 42], 42), Some(vec![7, 42]));
    assert_eq!(position_of(&vec![1, 42, 42], 42), Some(1));
    assert_eq!(position_of(&vec![1, 2], 42), None);
}

#[test]
fn add_then_remove_restores_the_set() {
    let start = vec![5, 1, 9];
    let added = plan_toggle(ToggleOp::Add, &start, 42).unwrap();
    assert_eq!(added, vec![5, 1, 9, 42]);
    let back = plan_toggle(ToggleOp::Remove, &added, 42).unwrap();
    assert_eq!(back, start);
}

#[test]
fn remove_then_add_restores_a_trailing_group() {
    let start = vec![5, 1, 42];
    let removed = plan_toggle(ToggleOp::Remove, &start, 42).unwrap();
    let back = plan_toggle(ToggleOp::Add, &removed, 42).unwrap();
    assert_eq!(back, start);
}

#[test]
fn unknown_group_and_client_are_reported() {
    let groups = GroupsResponse { groups: vec![group(1, "Default")] };
    match select_group(&groups, "Unresolved") {
        Err(ToggleError::GroupNotFound(n)) => assert_eq!(n, "Unresolved"),
        other => panic!("unexpected: {:?}", other),
    }
    let clients = ClientsResponse { clients: vec![client(17, "tv", vec![])] };
    match plan_client_update(ToggleOp::Add, 1, &clients, "Fire TV cube") {
        Err(ToggleError::ClientNotFound(n)) => assert_eq!(n, "Fire TV cube"),
        other => panic!("unexpected: {:?}", other),
    }
}

#[test]
fn duplicate_comments_take_the_first_client() {
    let clients = vec![client(3, "tv", vec![]), client(4, "tv", vec![])];
    assert_eq!(find_client(&clients, "tv"), Some(0));
    assert_eq!(find_client(&clients, "radio"), None);
    let groups = GroupsResponse { groups: vec![group(1, "a"), group(2, "b"), group(3, "b")] };
    assert_eq!(select_group(&groups, "b").unwrap(), 2);
}
