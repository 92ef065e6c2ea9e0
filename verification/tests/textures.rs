use meta_export::error::MetaError;
use meta_export::paths::{
    classify, identifier, parse_texture_paths, resolve_textures, select_textures, texture_dir,
    Entry,
};
use meta_export::texture::TextureKind;
use meta_export::tileset::Tileset;
use meta_export::trigger::TriggerKind;

fn name(stem: &str, ext: &str) -> Entry {
    Entry { path: format!("dir/{}.{}", stem, ext), stem: String::from(stem), ext: String::from(ext) }
}

fn stem_of(file_name: &str) -> String {
    let stem = std::path::Path::new(file_name).file_stem().unwrap_or_default();
    String::from(stem.to_str().unwrap_or_default())
}

fn paths(list: &[&str]) -> Vec<String> {
    list.iter().map(|p| String::from(*p)).collect()
}

#[test]
fn identifier_is_the_text_before_the_first_underscore() {
    assert_eq!(identifier("foo_bar"), Ok(String::from("foo")));
    assert_eq!(identifier("castle1_baron_castle_01"), Ok(String::from("castle1")));
    assert_eq!(identifier("_x"), Ok(String::new()));
    assert_eq!(identifier("a_"), Ok(String::from("a")));
    assert_eq!(identifier("\u{e9}t\u{e9}_1"), Ok(String::from("\u{e9}t\u{e9}")));
}

#[test]
fn identifier_of_a_metadata_file_name() {
    assert_eq!(stem_of("foo_bar.cn2"), "foo_bar");
    assert_eq!(identifier(&stem_of("foo_bar.cn2")), Ok(String::from("foo")));
    assert_eq!(identifier(&stem_of("maps/foo_bar.cn2")), Ok(String::from("foo")));
}

#[test]
fn sheets_of_a_file_are_those_under_its_identifier() {
    let entries = paths(&[
        "foo_bar_base.png",
        "bar_base.png",
        "bar_var.png",
        "bar_anm.png",
        "foo_x_var.png",
        "foo_bar_anm.png",
        "fo_base.png",
    ]);
    assert_eq!(
        parse_texture_paths("foo_bar.cn2", &entries),
        Ok((
            String::from("foo_bar_base.png"),
            String::from("foo_x_var.png"),
            String::from("foo_bar_anm.png"),
        ))
    );
}

#[test]
fn stem_without_underscore_has_no_identifier() {
    assert_eq!(identifier("foobar"), Err(MetaError::NoIdentifier));
    assert_eq!(identifier(""), Err(MetaError::NoIdentifier));
    assert_eq!(identifier(&stem_of("foo.tar_gz")), Err(MetaError::NoIdentifier));
}

#[test]
fn stem_and_extension_of_an_entry_are_taken_from_its_file_name() {
    let entries = paths(&[
        "maps.d/foo_base.png",
        "maps.d/foo_var.tar.png",
        "maps.d/foo_anm",
        "maps.d/foo_anm.png.bak",
        "maps.d/.foo_anm.png",
        "foo_anm.png/readme",
    ]);
    assert_eq!(
        parse_texture_paths("maps.d/foo_bar.cn2", &entries),
        Err(MetaError::MissingTextures { base: false, var: true, anm: true })
    );
}

#[test]
fn classify_tells_the_sheet_by_the_end_of_the_stem() {
    assert_eq!(classify("foo", "foo_base", "png"), Some(TextureKind::Base));
    assert_eq!(classify("foo", "foo_var", "png"), Some(TextureKind::Var));
    assert_eq!(classify("foo", "foo_anm", "png"), Some(TextureKind::Anm));
    assert_eq!(classify("foo", "foo_town_01_anm", "png"), Some(TextureKind::Anm));
    assert_eq!(classify("", "_base", "png"), Some(TextureKind::Base));
}

#[test]
fn classify_passes_over_what_is_no_sheet() {
    assert_eq!(classify("foo", "foo_base", "jpg"), None);
    assert_eq!(classify("foo", "foo_base", ""), None);
    assert_eq!(classify("foo", "bar_base", "png"), None);
    assert_eq!(classify("foo", "foobase", "png"), None);
    assert_eq!(classify("foo", "foo_other", "png"), None);
    assert_eq!(classify("foo", "foo_", "png"), None);
    assert_eq!(classify("foo", "foo", "png"), None);
    assert_eq!(classify("foo", "fo_base", "png"), None);
    assert_eq!(classify("foo", "FOO_BASE", "png"), None);
    assert_eq!(classify("foo", "foo_base", "PNG"), None);
    assert_eq!(classify("foo", "foo_basex", "png"), None);
}

#[test]
fn select_gives_the_position_of_each_sheet() {
    let names = vec![
        name("foo_var", "png"),
        name("readme", "txt"),
        name("foo_anm", "png"),
        name("foo_base", "png"),
    ];
    assert_eq!(select_textures("foo", &names), Ok((3, 0, 2)));
}

#[test]
fn select_sets_letter_case_aside() {
    let names = vec![name("FOO_Base", "PNG"), name("Foo_VAR", "Png"), name("foo_ANM", "pnG")];
    assert_eq!(select_textures("foo", &names), Ok((0, 1, 2)));
    assert_eq!(select_textures("FoO", &names), Ok((0, 1, 2)));
}

#[test]
fn select_takes_the_last_of_several_candidates() {
    let names = vec![
        name("foo_base", "png"),
        name("foo_var", "png"),
        name("foo_anm", "png"),
        name("foo_old_base", "png"),
        name("foo_2_var", "PNG"),
    ];
    assert_eq!(select_textures("foo", &names), Ok((3, 4, 2)));
}

#[test]
fn select_names_each_missing_sheet() {
    let names = vec![name("foo_base", "png"), name("foo_var", "png")];
    assert_eq!(
        select_textures("foo", &names),
        Err(MetaError::MissingTextures { base: false, var: false, anm: true })
    );
    let names = vec![name("foo_anm", "png"), name("bar_base", "png"), name("foo_var", "gif")];
    assert_eq!(
        select_textures("foo", &names),
        Err(MetaError::MissingTextures { base: true, var: true, anm: false })
    );
    assert_eq!(
        select_textures("foo", &vec![]),
        Err(MetaError::MissingTextures { base: true, var: true, anm: true })
    );
}

#[test]
fn resolve_looks_for_identifier_then_parent_then_sheets() {
    let all = vec![name("foo_base", "png"), name("foo_var", "png"), name("foo_anm", "png")];
    let two = vec![name("foo_base", "png"), name("foo_var", "png")];
    assert_eq!(
        resolve_textures("foo_bar", true, &all),
        Ok((
            String::from("dir/foo_base.png"),
            String::from("dir/foo_var.png"),
            String::from("dir/foo_anm.png"),
        ))
    );
    assert_eq!(resolve_textures("foo_bar", false, &all), Err(MetaError::NoParent));
    assert_eq!(resolve_textures("foo_bar", false, &two), Err(MetaError::NoParent));
    assert_eq!(resolve_textures("foobar", false, &two), Err(MetaError::NoIdentifier));
    assert_eq!(resolve_textures("foobar", true, &all), Err(MetaError::NoIdentifier));
    assert_eq!(
        resolve_textures("foo_bar", true, &two),
        Err(MetaError::MissingTextures { base: false, var: false, anm: true })
    );
}

#[test]
fn resolve_takes_the_path_of_the_last_candidate() {
    let entries = vec![
        Entry { path: String::from("a"), stem: String::from("T_base"), ext: String::from("png") },
        Entry { path: String::from("b"), stem: String::from("t_var"), ext: String::from("PNG") },
        Entry { path: String::from("c"), stem: String::from("t_anm"), ext: String::from("png") },
        Entry { path: String::from("d"), stem: String::from("t_BASE"), ext: String::from("png") },
    ];
    assert_eq!(
        resolve_textures("t_1", true, &entries),
        Ok((String::from("d"), String::from("b"), String::from("c")))
    );
}

#[test]
fn sheets_are_found_among_the_entries_of_the_directory() {
    let entries = paths(&[
        "maps/foo_bar.cn2",
        "maps/foo_var.png",
        "maps/foo_base.png",
        "maps/other_anm.png",
        "maps/foo_anm.png",
    ]);
    assert_eq!(
        parse_texture_paths("maps/foo_bar.cn2", &entries),
        Ok((
            String::from("maps/foo_base.png"),
            String::from("maps/foo_var.png"),
            String::from("maps/foo_anm.png"),
        ))
    );
}

#[test]
fn resolution_fails_without_the_anm_sheet() {
    let entries = paths(&["maps/foo_base.png", "maps/foo_var.png"]);
    assert_eq!(
        parse_texture_paths("maps/foo_bar.cn2", &entries),
        Err(MetaError::MissingTextures { base: false, var: false, anm: true })
    );
}

#[test]
fn resolution_fails_without_an_identifier() {
    let entries = paths(&["maps/foo_base.png", "maps/foo_var.png", "maps/foo_anm.png"]);
    assert_eq!(parse_texture_paths("maps/foobar.cn2", &entries), Err(MetaError::NoIdentifier));
    assert_eq!(parse_texture_paths("", &entries), Err(MetaError::NoIdentifier));
    assert_eq!(parse_texture_paths("/", &entries), Err(MetaError::NoIdentifier));
}

#[test]
fn directory_to_scan_is_the_parent() {
    assert_eq!(texture_dir("maps/foo_bar.cn2"), Ok(String::from("maps")));
    assert_eq!(texture_dir("foo_bar.cn2"), Ok(String::new()));
    assert_eq!(texture_dir("maps/foobar.cn2"), Err(MetaError::NoIdentifier));
    assert_eq!(texture_dir(""), Err(MetaError::NoIdentifier));
}

#[test]
fn load_resolves_the_sheets_and_decodes_the_file() {
    let entries = paths(&["t/foo_ANM.png", "t/foo_base.PNG", "t/Foo_var.png", "t/foo_bar.cn2"]);
    let data = vec![1, 0, 1, 0, 7, 2, 8, 1, 0x05, 0x13];
    let tileset = Tileset::load("t/foo_bar.cn2", &entries, data).unwrap();
    assert_eq!(tileset.base, "t/foo_base.PNG");
    assert_eq!(tileset.var, "t/Foo_var.png");
    assert_eq!(tileset.anm, "t/foo_ANM.png");
    assert_eq!(tileset.width, 1);
    assert_eq!(tileset.height, 1);
    assert_eq!(tileset.layers[0].cells[0].index, 7);
    assert_eq!(tileset.layers[0].cells[0].kind, TextureKind::Anm);
    assert_eq!(tileset.layers[0].cells[0].trigger, TriggerKind::Bridge);
    assert_eq!(tileset.layers[1].cells[0].index, 8);
    assert_eq!(tileset.layers[1].cells[0].kind, TextureKind::Var);
    assert_eq!(tileset.layers[1].cells[0].trigger, TriggerKind::Unknown13);
}

#[test]
fn load_reports_missing_sheets_before_it_reads_the_file() {
    let entries = paths(&["t/foo_base.png"]);
    assert_eq!(
        Tileset::load("t/foo_bar.cn2", &entries, vec![]),
        Err(MetaError::MissingTextures { base: false, var: true, anm: true })
    );
    let entries = paths(&["t/foo_base.png", "t/foo_var.png", "t/foo_anm.png"]);
    assert_eq!(Tileset::load("t/foo_bar.cn2", &entries, vec![1]), Err(MetaError::Truncated));
    assert_eq!(
        Tileset::load("t/foo_bar.cn2", &entries, vec![1, 0, 1, 0, 0, 4]),
        Err(MetaError::InvalidTilesetIndex)
    );
}
