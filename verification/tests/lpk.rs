use live2d_lpk::cipher::{decrypt, make_key};
use live2d_lpk::lpk::configs::{
    Live2dConfig, Live2dMotions, LpkCharacter, LpkConfig, LpkCostume, MLveConfig,
};
use live2d_lpk::lpk::errors::LpkError;
use live2d_lpk::lpk::lpk_loader::{
    decrypt_entry, entry_key, CostumeTask, Extraction, LegacyAction, LpkLoader, OutputFile,
    Reference,
};

const A: &str = "0123456789abcdef0123456789abcdef";
const B: &str = "fedcba9876543210fedcba9876543210.bin";

fn costume(name: &str, path: &str) -> LpkCostume {
    LpkCostume { name: name.to_string(), path: path.to_string() }
}

fn character(name: &str, costumes: Vec<LpkCostume>) -> LpkCharacter {
    LpkCharacter {
        id: "1".to_string(),
        character: name.to_string(),
        avatar: String::new(),
        costume: costumes,
    }
}

fn manifest(kind: &str, encrypt: &str, list: Vec<LpkCharacter>) -> MLveConfig {
    MLveConfig {
        kind: kind.to_string(),
        name: "pack".to_string(),
        id: "3453065926".to_string(),
        encrypt: encrypt.to_string(),
        version: "1".to_string(),
        list,
    }
}

fn config() -> LpkConfig {
    LpkConfig {
        file_id: "FID".to_string(),
        meta_data: "{meta}".to_string(),
        ..LpkConfig::default()
    }
}

fn loader(kind: &str, encrypt: &str) -> LpkLoader {
    LpkLoader::open_with_config(manifest(kind, encrypt, vec![]), config())
}

fn no_policy_for(kind: &str) -> LpkError {
    LpkError::DecodeError { format: kind.to_string(), message: "unimplement".to_string() }
}

#[test]
fn manifest_text_is_chosen() {
    let text = |s: &str| Some(s.to_string());
    assert_eq!(LpkLoader::load_lpk(text("{h}"), text("{p}")), Ok("{h}".to_string()));
    assert_eq!(LpkLoader::load_lpk(text(""), text("{p}")), Ok("{p}".to_string()));
    assert_eq!(LpkLoader::load_lpk(None, text("{p}")), Ok("{p}".to_string()));
    assert_eq!(LpkLoader::load_lpk(None, text("")), Ok(String::new()));
    assert_eq!(LpkLoader::load_lpk(text("{h}"), None), Ok("{h}".to_string()));
    assert_eq!(LpkLoader::load_lpk(text(""), None), Err(LpkError::ConfigMissing));
    assert_eq!(LpkLoader::load_lpk(None, None), Err(LpkError::ConfigMissing));
}

#[test]
fn workshop_archives_need_their_configuration() {
    assert!(LpkLoader::needs_config(&manifest("STM_1_0", "encrypt", vec![])));
    assert!(!LpkLoader::needs_config(&manifest("STD2_0", "encrypt", vec![])));
    assert!(!LpkLoader::needs_config(&manifest("STD_1_0", "encrypt", vec![])));
    assert!(!LpkLoader::needs_config(&manifest("", "", vec![])));
    assert!(!LpkLoader::needs_config(&MLveConfig::default()));
}

#[test]
fn standalone_keys_are_identifier_and_name() {
    let data = b"some bytes of an entry".to_vec();
    for kind in ["STD_1_0", "STD2_0"] {
        let out = loader(kind, "encrypt").decrypt_data("model.json", &data);
        assert_eq!(out, Ok(decrypt(make_key("3453065926model.json"), &data)));
        assert_eq!(out, Ok(decrypt(827296954, &data)));
        assert_ne!(out, Ok(data.clone()));
    }
    let plain = LpkLoader::open(manifest("STD2_0", "encrypt", vec![]));
    assert_eq!(plain.decrypt_data("x", &data), Ok(decrypt(make_key("3453065926x"), &data)));
}

#[test]
fn workshop_keys_take_in_the_configuration() {
    let data = vec![7u8; 1500];
    let out = loader("STM_1_0", "encrypt").decrypt_data("a.png", &data);
    assert_eq!(out, Ok(decrypt(make_key("3453065926FIDa.png{meta}"), &data)));
    let out = loader("STM_1_0", "true").decrypt_data("a.png", &data);
    assert_eq!(out, Ok(decrypt(make_key("3453065926FIDa.png{meta}"), &data)));
    let bare = LpkLoader::open(manifest("STM_1_0", "encrypt", vec![]));
    assert_eq!(bare.decrypt_data("a.png", &data), Ok(decrypt(make_key("3453065926a.png"), &data)));
}

#[test]
fn workshop_archive_that_says_false_has_key_zero() {
    let out = loader("STM_1_0", "false").decrypt_data("a.png", &[0u8; 4]);
    assert_eq!(out, Ok(vec![38, 162, 55, 98]));
    let out = loader("STD2_0", "false").decrypt_data("a.png", &[0u8; 4]);
    assert_eq!(out, Ok(decrypt(make_key("3453065926a.png"), &[0u8; 4])));
}

#[test]
fn other_types_have_no_key() {
    for kind in ["", "STD_2_0", "std2_0", "STM_1_0 ", "LEGACY"] {
        assert_eq!(loader(kind, "encrypt").decrypt_data("a", &[1, 2]), Err(no_policy_for(kind)));
        assert_eq!(loader(kind, "false").decrypt_data("a", &[]), Err(no_policy_for(kind)));
    }
}

#[test]
fn extraction_goes_by_type_and_encryption() {
    assert_eq!(loader("STD2_0", "encrypt").extract(), Extraction::Standard);
    assert_eq!(loader("STM_1_0", "false").extract(), Extraction::Standard);
    assert_eq!(loader("STD_1_0", "encrypt").extract(), Extraction::LegacyDecrypt);
    assert_eq!(loader("STD_1_0", "false").extract(), Extraction::LegacyUnpack);
    assert_eq!(loader("STD_1_0", "").extract(), Extraction::LegacyUnpack);
    assert_eq!(loader("STD_1_0", "Encrypt").extract(), Extraction::LegacyUnpack);
    assert_eq!(loader("", "encrypt").extract(), Extraction::LegacyDecrypt);
}

#[test]
fn legacy_entries_go_by_their_ending() {
    let l = loader("STD_1_0", "encrypt");
    assert_eq!(l.extract_legacy(None), LegacyAction::Skip);
    assert_eq!(l.extract_legacy(Some("json")), LegacyAction::Copy);
    assert_eq!(l.extract_legacy(Some("mlve")), LegacyAction::Copy);
    assert_eq!(l.extract_legacy(Some("txt")), LegacyAction::Copy);
    assert_eq!(l.extract_legacy(Some("png")), LegacyAction::Decrypt);
    assert_eq!(l.extract_legacy(Some("JSON")), LegacyAction::Decrypt);
    assert_eq!(l.extract_legacy(Some("")), LegacyAction::Decrypt);
    assert_eq!(l.extract_legacy(Some("moc3")), LegacyAction::Decrypt);
}

#[test]
fn missing_entries_are_found_out() {
    let missing = |name: &str| Err(LpkError::DecryptionFailed(format!("File not found: {}", name)));
    let l = loader("STD2_0", "encrypt");
    assert_eq!(l.check_decrypt(A, true), Ok(()));
    assert_eq!(l.check_decrypt(A, false), missing(A));
    assert_eq!(l.check_decrypt(B, false), missing(B));
    assert_eq!(l.check_decrypt("model.json", false), Ok(()));
    assert_eq!(l.check_decrypt("", false), Ok(()));
    let open = loader("STD2_0", "false");
    assert_eq!(open.check_decrypt(A, false), Ok(()));
}

#[test]
fn recorded_entries_are_not_missed() {
    let mut l = loader("STD2_0", "encrypt");
    l.record(B.to_string(), "texture0.png".to_string());
    assert!(l.check_decrypt(A, false).is_err());
    l.record(A.to_string(), "character.moc3".to_string());
    assert_eq!(l.check_decrypt(A, false), Ok(()));
    assert_eq!(l.check_decrypt(B, false), Ok(()));
    assert_eq!(l.recorded(A), Some(&"character.moc3".to_string()));
    l.record(A.to_string(), "again.moc3".to_string());
    assert_eq!(l.recorded(A), Some(&"again.moc3".to_string()));
    assert_eq!(l.recorded(B), Some(&"texture0.png".to_string()));
    assert_eq!(l.recorded("other"), None);
    assert_eq!(l.check_decrypt(A, false), Ok(()));
    assert_eq!(l.extract(), Extraction::Standard);
}

#[test]
fn costumes_without_a_name_are_passed_over() {
    let l = loader("STD2_0", "encrypt");
    assert_eq!(l.extract_costume("", false), Ok(false));
    assert_eq!(l.extract_costume("", true), Ok(false));
    assert_eq!(l.extract_costume(A, true), Ok(true));
    assert_eq!(l.extract_costume("plain.json", false), Ok(true));
    assert_eq!(
        l.extract_costume(A, false),
        Err(LpkError::DecryptionFailed(format!("File not found: {}", A)))
    );
}

fn cast() -> Vec<LpkCharacter> {
    vec![
        character("Mao", vec![costume("school", A), costume("none", ""), costume("gym", B)]),
        character("", vec![costume("only", "plain.json")]),
        character("Empty", vec![]),
    ]
}

#[test]
fn standard_tasks_follow_the_manifest() {
    let l = LpkLoader::open(manifest("STD2_0", "encrypt", cast()));
    let task = |path: &str, directory: &str, label: &str| CostumeTask {
        path: path.to_string(),
        directory: directory.to_string(),
        label: label.to_string(),
    };
    assert_eq!(
        l.extract_standard(),
        vec![
            task(A, "Mao", "Mao_costume_0"),
            task(B, "Mao", "Mao_costume_2"),
            task("plain.json", "character", "character_costume_0"),
        ]
    );
    assert_eq!(loader("STD2_0", "encrypt").extract_standard(), vec![]);
}

#[test]
fn standard_tasks_count_costumes_in_decimal() {
    let many = (0..12).map(|i| costume("c", if i % 11 == 0 { "p" } else { "" })).collect();
    let l = LpkLoader::open(manifest("STD2_0", "encrypt", vec![character("X", many)]));
    let labels: Vec<String> = l.extract_standard().into_iter().map(|t| t.label).collect();
    assert_eq!(labels, vec!["X_costume_0", "X_costume_11"]);
}

#[test]
fn model_entry_is_written_for_every_costume() {
    let l = LpkLoader::open(manifest("STD2_0", "encrypt", cast()));
    let buffer = b"{\"Version\":3}".to_vec();
    let file = |name: &str, path: &str| OutputFile {
        name: name.to_string(),
        data: decrypt(make_key(&format!("3453065926{}", path)), &buffer),
    };
    assert_eq!(
        l.extract_model_json(&buffer),
        Ok(vec![
            file("Mao-school.model3.json", A),
            file("Mao-none.model3.json", ""),
            file("Mao-gym.model3.json", B),
            file("-only.model3.json", "plain.json"),
        ])
    );
}

#[test]
fn model_entry_of_an_archive_without_key_policy() {
    let l = LpkLoader::open(manifest("OLD", "encrypt", cast()));
    assert_eq!(l.extract_model_json(b"x"), Err(no_policy_for("OLD")));
    let empty = vec![character("Empty", vec![]), character("Other", vec![])];
    let l = LpkLoader::open(manifest("OLD", "encrypt", empty));
    assert_eq!(l.extract_model_json(b"x"), Ok(vec![]));
    assert_eq!(loader("OLD", "encrypt").extract_model_json(b"x"), Ok(vec![]));
}

fn model(moc: &str, textures: &[&str]) -> Live2dConfig {
    Live2dConfig {
        version: "3".to_string(),
        model: moc.to_string(),
        textures: textures.iter().map(|t| t.to_string()).collect(),
        motions: Live2dMotions::default(),
        expressions: vec![],
        physics: String::new(),
    }
}

#[test]
fn model_references_name_what_to_decrypt() {
    let l = loader("STD2_0", "encrypt");
    let reference = |entry: &str, output: &str, required: bool| Reference {
        entry: entry.to_string(),
        output: output.to_string(),
        required,
    };
    assert_eq!(
        l.process_model_references(&model(A, &[B, "plain.png", "", A])),
        vec![
            reference(A, "character.moc3", true),
            reference(B, "texture0.png", false),
            reference(A, "texture0.png", false),
        ]
    );
    assert_eq!(
        l.process_model_references(&model("model.moc3", &[B])),
        vec![reference(B, "texture0.png", false)]
    );
    assert_eq!(l.process_model_references(&model("", &[])), vec![]);
}

#[test]
fn lpk_error_messages() {
    let text = |s: &str| s.to_string();
    assert_eq!(
        LpkError::IoError { path: text("a.rs:1:2"), message: text("denied") }.message(),
        "IO错误: a.rs:1:2 denied"
    );
    assert_eq!(LpkError::ZipError(text("bad")).message(), "Zip错误: bad");
    assert_eq!(
        LpkError::DecodeError { format: text("json"), message: text("eof") }.message(),
        "解码错误: json eof"
    );
    assert_eq!(LpkError::ConfigMissing.message(), "配置文件缺失");
    assert_eq!(LpkError::UnsupportedLpkType(text("X")).message(), "不支持的LPK类型: X");
    assert_eq!(LpkError::DecryptionFailed(text("why")).message(), "解密失败: why");
    assert_eq!(LpkError::UnknownError.message(), "未知错误");
}

#[test]
fn default_configurations_are_empty() {
    let c = LpkConfig::default();
    assert!(c.lpk_file.is_empty() && c.file.is_empty() && c.preview_file.is_empty());
    assert!(c.file_id.is_empty() && c.title.is_empty() && c.author.is_empty());
    assert!(c.description.is_empty() && c.meta_data.is_empty());
    assert_eq!((c.kind, c.stereo_mode, c.key), (0, 0, None));
    let m = MLveConfig::default();
    assert!(m.kind.is_empty() && m.name.is_empty() && m.id.is_empty());
    assert!(m.encrypt.is_empty() && m.version.is_empty() && m.list.is_empty());
    assert!(Live2dMotions::default().tap.is_empty());
}

#[test]
fn entry_keys_from_plain_texts() {
    assert_eq!(entry_key("STD_1_0", "id", "f", "name", "m", "encrypt"), Some(make_key("idname")));
    assert_eq!(entry_key("STD2_0", "", "f", "", "m", "false"), Some(0));
    assert_eq!(entry_key("STD2_0", "a", "f", "bc", "m", "false"), Some(96354));
    assert_eq!(entry_key("STM_1_0", "id", "f", "name", "m", "encrypt"), Some(make_key("idfnamem")));
    assert_eq!(entry_key("STM_1_0", "id", "f", "name", "m", ""), Some(make_key("idfnamem")));
    assert_eq!(entry_key("STM_1_0", "id", "f", "name", "m", "false"), Some(0));
    assert_eq!(entry_key("STM_1_0", "", "", "config.mlve", "", "x"), Some(-27942982));
    assert_eq!(entry_key("STM_2_0", "id", "f", "name", "m", "encrypt"), None);
    assert_eq!(entry_key("", "id", "f", "name", "m", "false"), None);
}

#[test]
fn entries_decrypt_to_their_own_length() {
    let data: Vec<u8> = (0..2500u32).map(|i| (i % 256) as u8).collect();
    let out = decrypt_entry("STD2_0", "id", "", "name", "", "encrypt", &data).unwrap();
    assert_eq!(out.len(), data.len());
    assert_eq!(out, decrypt(make_key("idname"), &data));
    assert_eq!(decrypt_entry("STD2_0", "id", "", "name", "", "encrypt", &out), Ok(data));
    assert_eq!(
        decrypt_entry("STM_1_0", "", "", "", "", "false", b"hello"),
        Ok(decrypt(0, b"hello"))
    );
    assert_eq!(
        decrypt_entry("ZIP", "id", "", "name", "", "encrypt", &[]),
        Err(no_policy_for("ZIP"))
    );
}

#[test]
fn plain_manifest_is_wanted_without_a_hashed_one() {
    assert!(LpkLoader::wants_plain(None));
    assert!(LpkLoader::wants_plain(Some("")));
    assert!(!LpkLoader::wants_plain(Some("{}")));
}

#[test]
fn archive_is_asked_for_encrypted_names_only() {
    let mut l = loader("STD2_0", "encrypt");
    assert!(l.needs_lookup(A));
    assert!(l.needs_lookup(B));
    assert!(!l.needs_lookup("model.json"));
    assert!(!l.needs_lookup(""));
    l.record(A.to_string(), "out".to_string());
    assert!(!l.needs_lookup(A));
    assert!(l.needs_lookup(B));
    assert!(!loader("STD2_0", "false").needs_lookup(A));
}
