use imd::catalog::{
    cover_image_filename, cover_image_stem, default_choice_index, detect_platform, file_extension,
    file_name_of, file_stem, find_file, hash_record_filename, is_legal_model_file, legacy_cover_image_filename,
    match_by_blake3, pick_cover_image, primary_file_id, try_parse_civitai_model_url, FileEntry,
    ModelUrlError, ModelVersionFileNamePresent, Platform,
};

fn file(id: u64, name: &str, primary: Option<bool>) -> FileEntry {
    FileEntry { id, name: name.to_string(), is_primary: primary, blake3_hash: None }
}

fn strings(v: &[&str]) -> Vec<String> {
    v.iter().map(|s| s.to_string()).collect()
}

#[test]
fn platform_from_host() {
    assert_eq!(detect_platform("civitai.com"), Some(Platform::Civitai));
    assert_eq!(detect_platform("CivitAI.com"), Some(Platform::Civitai));
    assert_eq!(detect_platform("huggingface.co"), Some(Platform::HuggingFace));
    assert_eq!(detect_platform("example.com"), None);
    assert_eq!(detect_platform(""), None);
}

#[test]
fn model_file_extensions() {
    assert!(is_legal_model_file("/x/y/model.safetensors"));
    assert!(is_legal_model_file("model.CKPT"));
    assert!(is_legal_model_file("a.b.pt"));
    assert!(is_legal_model_file("weights.bin"));
    assert!(!is_legal_model_file("readme.md"));
    assert!(!is_legal_model_file("/x/safetensors"));
    assert!(!is_legal_model_file(".safetensors"));
    assert!(!is_legal_model_file("/dir.ckpt/file"));
    assert!(is_legal_model_file("m.pt/"));
    assert!(is_legal_model_file("/x/m.safetensors/."));
    assert!(!is_legal_model_file("m.pt/.."));
    assert!(!is_legal_model_file(""));
}

#[test]
fn file_name_parts() {
    assert_eq!(file_name_of("/a/b/c.txt"), Some("c.txt".to_string()));
    assert_eq!(file_name_of("c.txt"), Some("c.txt".to_string()));
    assert_eq!(file_name_of("/a/b/"), Some("b".to_string()));
    assert_eq!(file_name_of("a/b/./"), Some("b".to_string()));
    assert_eq!(file_name_of("a/.."), None);
    assert_eq!(file_name_of("/"), None);
    assert_eq!(file_name_of(""), None);
    assert_eq!(file_name_of("."), None);
    assert_eq!(file_stem("m.safetensors"), "m");
    assert_eq!(file_stem("a.b.c"), "a.b");
    assert_eq!(file_stem(".hidden"), ".hidden");
    assert_eq!(file_stem("plain"), "plain");
    assert_eq!(file_extension("a.b.c"), Some("c".to_string()));
    assert_eq!(file_extension(".hidden"), None);
    assert_eq!(file_extension("plain"), None);
}

#[test]
fn cover_image_names() {
    assert_eq!(cover_image_filename("m"), "m.cover.png");
    assert_eq!(legacy_cover_image_filename("m"), "m.cover.jpg");
    assert_eq!(hash_record_filename("m"), "m.blake3");
}

#[test]
fn model_url_with_version() {
    let segs = strings(&["models", "12345", "some-name"]);
    let query = vec![("modelVersionId".to_string(), "678".to_string())];
    let (model, version) = try_parse_civitai_model_url(&segs, &query).unwrap();
    assert_eq!(model, "12345");
    assert_eq!(version, Some("678".to_string()));
}

#[test]
fn model_url_without_version() {
    let segs = strings(&["Models", "99"]);
    let query = vec![("other".to_string(), "1".to_string())];
    assert_eq!(try_parse_civitai_model_url(&segs, &query).unwrap(), ("99".to_string(), None));
}

#[test]
fn model_url_first_version_pair_wins() {
    let segs = strings(&["models", "1"]);
    let query = vec![
        ("MODELVERSIONID".to_string(), "5".to_string()),
        ("modelVersionId".to_string(), "6".to_string()),
    ];
    assert_eq!(try_parse_civitai_model_url(&segs, &query).unwrap().1, Some("5".to_string()));
}

#[test]
fn model_url_without_model_id_is_rejected() {
    let none: Vec<(String, String)> = vec![];
    assert_eq!(try_parse_civitai_model_url(&strings(&["images", "1"]), &none), Err(ModelUrlError::MissingModelId));
    assert_eq!(try_parse_civitai_model_url(&strings(&["models"]), &none), Err(ModelUrlError::MissingModelId));
    assert_eq!(try_parse_civitai_model_url(&strings(&[]), &none), Err(ModelUrlError::MissingModelId));
}

#[test]
fn primary_file_choice() {
    assert_eq!(primary_file_id(&vec![file(1, "a", None), file(2, "b", Some(true)), file(3, "c", Some(true))]), Some(2));
    assert_eq!(primary_file_id(&vec![file(1, "a", Some(false)), file(2, "b", None)]), Some(1));
    assert_eq!(primary_file_id(&vec![]), None);
}

#[test]
fn file_lookup_by_id() {
    let files = vec![file(5, "a", None), file(6, "b", None), file(6, "c", None)];
    assert_eq!(find_file(&files, 6), Some(1));
    assert_eq!(find_file(&files, 7), None);
}

#[test]
fn declared_blake3_comparison() {
    let mut f = file(1, "a", None);
    assert!(!match_by_blake3(&f, "ABCD"));
    f.blake3_hash = Some("abcd".to_string());
    assert!(match_by_blake3(&f, "ABCD"));
    assert!(!match_by_blake3(&f, "ABCE"));
}

#[test]
fn cover_image_is_first_non_video() {
    assert_eq!(pick_cover_image(&strings(&["video", "VIDEO", "image", "image"])), Some(2));
    assert_eq!(pick_cover_image(&strings(&["video"])), None);
    assert_eq!(pick_cover_image(&strings(&[])), None);
}

#[test]
fn cover_image_stem_by_each_naming() {
    let files = vec![file(1, "a.safetensors", None), file(2, "b.ckpt", Some(true))];
    assert_eq!(cover_image_stem(&ModelVersionFileNamePresent::FileID(1), &files), Some("a".to_string()));
    assert_eq!(cover_image_stem(&ModelVersionFileNamePresent::FileID(9), &files), None);
    assert_eq!(cover_image_stem(&ModelVersionFileNamePresent::PrimaryFile, &files), Some("b".to_string()));
    assert_eq!(
        cover_image_stem(&ModelVersionFileNamePresent::FileName("/m/x.y.pt".to_string()), &files),
        Some("x.y".to_string())
    );
    assert_eq!(cover_image_stem(&ModelVersionFileNamePresent::PrimaryFile, &vec![file(1, "a", None)]), None);
    assert_eq!(cover_image_stem(&ModelVersionFileNamePresent::FileName("/m/..".to_string()), &files), None);
}

#[test]
fn preselected_version() {
    assert_eq!(default_choice_index(&vec![10, 20, 30], Some(30)), 2);
    assert_eq!(default_choice_index(&vec![10, 20, 30], Some(40)), 0);
    assert_eq!(default_choice_index(&vec![10, 20, 30], None), 0);
}
