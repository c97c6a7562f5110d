use std::sync::{Arc, RwLock};

use layoutlens::model::{CreateProject, Project};
use layoutlens::service::{create_project, get_project, update_project, ServiceError};
use layoutlens::store::Store;

fn needs_send_and_sync<T: Send + Sync>(_: &T) {}

#[test]
fn store_can_be_shared_between_tasks() {
    let shared = Arc::new(RwLock::new(Store::new()));
    needs_send_and_sync(&shared);
}

#[test]
fn operations_work_through_a_lock() {
    let shared = Arc::new(RwLock::new(Store::new()));
    let writer = Arc::clone(&shared);
    let reader = Arc::clone(&shared);

    let created =
        create_project(&mut writer.write().unwrap(), CreateProject { name: "Hall".to_string() });
    assert_eq!(get_project(&reader.read().unwrap(), &created.id), Ok(created.clone()));

    let payload = Project { id: created.id.clone(), name: "Lobby".to_string(), walls: Vec::new() };
    let reply = update_project(&mut writer.write().unwrap(), created.id.clone(), payload.clone());
    assert_eq!(reply, Ok(payload.clone()));
    assert_eq!(get_project(&reader.read().unwrap(), &created.id), Ok(payload));

    let missing = update_project(
        &mut writer.write().unwrap(),
        "nobody".to_string(),
        Project { id: "nobody".to_string(), name: "x".to_string(), walls: Vec::new() },
    );
    assert_eq!(missing, Err(ServiceError::NotFound));
}
