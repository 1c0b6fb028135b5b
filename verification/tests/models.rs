use printerlynx::common::mapper::{account_to_viewmodel, printfile_to_viewmodel};
use printerlynx::common::text::{byte_count, decimal, has_char, join, same_text};
use printerlynx::models::account_model::{AccountDbModel, AccountViewModel};
use printerlynx::models::agent_model::{AgentDbModel, AgentViewModel};
use printerlynx::models::printfile_model::{
    FileStorageType, FileType, PrintFileDbModel, PrintFileViewModel,
};
use printerlynx::models::view_model::ViewModel;

fn account() -> AccountDbModel {
    AccountDbModel {
        uuid: "id".to_string(),
        username: "alice".to_string(),
        email: "alice@example.org".to_string(),
        password: "hash".to_string(),
        created_at: "1".to_string(),
        updated_at: "2".to_string(),
    }
}

fn printfile() -> PrintFileDbModel {
    PrintFileDbModel {
        uuid: "f".to_string(),
        user_uuid: "u".to_string(),
        name: "benchy.gcode".to_string(),
        path: "/srv/u/benchy.gcode".to_string(),
        size: -3,
        checksum: "c".to_string(),
        file_type: "Gcode".to_string(),
        file_storage_type: "local".to_string(),
        created_at: "1".to_string(),
    }
}

#[test]
fn account_view_leaves_out_the_password() {
    let view = AccountViewModel {
        uuid: "id".to_string(),
        username: "alice".to_string(),
        email: "alice@example.org".to_string(),
    };
    assert_eq!(account().to_viewmodel(), view);
    assert_eq!(account_to_viewmodel(account()), view);
}

#[test]
fn printfile_view_leaves_out_the_path() {
    let view = PrintFileViewModel {
        uuid: "f".to_string(),
        user_uuid: "u".to_string(),
        name: "benchy.gcode".to_string(),
        size: -3,
        checksum: "c".to_string(),
        file_type: "Gcode".to_string(),
        file_storage_type: "local".to_string(),
        created_at: "1".to_string(),
    };
    assert_eq!(printfile().to_viewmodel(), view);
    assert_eq!(printfile_to_viewmodel(printfile()), view);
}

#[test]
fn agent_view_shows_every_field() {
    let agent = AgentDbModel {
        uuid: "a".to_string(),
        user_uuid: "u".to_string(),
        name: "n".to_string(),
        description: "d".to_string(),
        token: "t".to_string(),
        created_at: "1".to_string(),
    };
    assert_eq!(
        agent.to_viewmodel(),
        AgentViewModel {
            uuid: "a".to_string(),
            user_uuid: "u".to_string(),
            name: "n".to_string(),
            description: "d".to_string(),
            token: "t".to_string(),
            created_at: "1".to_string(),
        }
    );
}

#[test]
fn kinds_of_file_and_storage_have_their_names() {
    assert_eq!(FileType::Gcode.name(), "Gcode");
    assert_eq!(FileType::Stl.name(), "Stl");
    assert_eq!(FileType::Obj.name(), "Obj");
    assert_eq!(FileType::Amf.name(), "Amf");
    assert_eq!(FileType::Unknown.name(), "Unknown");
    assert_eq!(FileStorageType::Local.name(), "Local");
    assert_eq!(FileStorageType::S3.name(), "S3");
}

#[test]
fn texts_are_searched_measured_and_joined() {
    assert!(has_char("a@b", '@'));
    assert!(has_char("@", '@'));
    assert!(has_char("日本@語", '@'));
    assert!(has_char("ab@", '@'));
    assert!(!has_char("", '@'));
    assert!(!has_char("a.b", '@'));
    assert!(!has_char("＠", '@'));
    assert_eq!(byte_count(""), 0);
    assert_eq!(byte_count("abc"), 3);
    assert_eq!(byte_count("é"), 2);
    assert_eq!(byte_count("🦀"), 4);
    assert_eq!(join("a", "b"), "a/b");
    assert_eq!(join("", ""), "/");
    assert_eq!(join("a/", "/b"), "a///b");
}

#[test]
fn texts_are_compared_character_by_character() {
    assert!(same_text("", ""));
    assert!(same_text("User", "User"));
    assert!(same_text("日本語 🦀", "日本語 🦀"));
    assert!(!same_text("User", "UserAuthentication"));
    assert!(!same_text("UserAuthentication", "User"));
    assert!(!same_text("Agent", "Error"));
    assert!(!same_text("", "a"));
    assert!(!same_text("a", ""));
    assert!(!same_text("abc", "abd"));
    assert!(!same_text("é", "e"));
}

#[test]
fn numbers_are_written_in_decimal() {
    assert_eq!(decimal(0), "0");
    assert_eq!(decimal(7), "7");
    assert_eq!(decimal(10), "10");
    assert_eq!(decimal(109), "109");
    assert_eq!(decimal(9_876_543_210), "9876543210");
    assert_eq!(decimal(u64::MAX), u64::MAX.to_string());
}
