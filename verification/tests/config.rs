use wallcycle::config::{normalize, parse_wallmode, Cnf, ConfigInvalid, GlobCnf, LocalCnf,
    OnlineCnf, WallMode};

fn base_cnf() -> Cnf {
    Cnf {
        online: OnlineCnf { urls: vec!["https://example.test/img".to_string()], tls: true },
        local: LocalCnf {
            directories: vec!["/pictures".to_string()],
            use_portrait: false,
            landscape_coef_milli: 1200,
            set_quality_control: false,
            min_pixels: 1_000_000,
            max_pixels: 20_000_000,
            enable_file_blacklist: false,
            enable_folder_blacklist: false,
            blacklist_files: vec![],
            blacklist_folders: vec![],
        },
        global: GlobCnf {
            interval: 60,
            use_directory: true,
            use_urls: true,
            wallmode: "Crop".to_string(),
        },
    }
}

#[test]
fn empty_directory_list_disables_and_invalidates() {
    let mut cnf = base_cnf();
    cnf.local.directories = vec![];
    cnf.global.use_directory = true;
    cnf.global.use_urls = false;
    assert_eq!(normalize(cnf).err(), Some(ConfigInvalid));
}

#[test]
fn one_empty_source_falls_back_to_the_other() {
    let mut cnf = base_cnf();
    cnf.local.directories = vec![];
    let c = normalize(cnf).unwrap();
    assert!(!c.global.use_directory);
    assert!(c.global.use_urls);
}

#[test]
fn both_sources_enabled_stay_enabled() {
    let c = normalize(base_cnf()).unwrap();
    assert!(c.global.use_directory);
    assert!(c.global.use_urls);
}

#[test]
fn coefficient_outside_the_open_interval_resets() {
    for coef in [0, 999, 1000, 3000, 3001, 50_000] {
        let mut cnf = base_cnf();
        cnf.local.landscape_coef_milli = coef;
        let c = normalize(cnf).unwrap();
        assert_eq!(c.local.landscape_coef_milli, 1200);
    }
}

#[test]
fn coefficient_inside_the_open_interval_is_kept() {
    for coef in [1001, 1200, 2000, 2999] {
        let mut cnf = base_cnf();
        cnf.local.landscape_coef_milli = coef;
        let c = normalize(cnf).unwrap();
        assert_eq!(c.local.landscape_coef_milli, coef);
    }
}

#[test]
fn interval_has_a_floor_of_ten() {
    let mut cnf = base_cnf();
    cnf.global.interval = 3;
    assert_eq!(normalize(cnf).unwrap().global.interval, 10);
    let mut cnf = base_cnf();
    cnf.global.interval = 10;
    assert_eq!(normalize(cnf).unwrap().global.interval, 10);
    let mut cnf = base_cnf();
    cnf.global.interval = 3600;
    assert_eq!(normalize(cnf).unwrap().global.interval, 3600);
}

#[test]
fn empty_blacklists_disable_their_flags() {
    let mut cnf = base_cnf();
    cnf.local.enable_file_blacklist = true;
    cnf.local.enable_folder_blacklist = true;
    cnf.local.blacklist_files = vec![];
    cnf.local.blacklist_folders = vec!["nsfw".to_string()];
    let c = normalize(cnf).unwrap();
    assert!(!c.local.enable_file_blacklist);
    assert!(c.local.enable_folder_blacklist);
}

#[test]
fn wallmode_names_parse_exactly() {
    assert_eq!(parse_wallmode("Fit"), WallMode::Fit);
    assert_eq!(parse_wallmode("Center"), WallMode::Center);
    assert_eq!(parse_wallmode("Crop"), WallMode::Crop);
    assert_eq!(parse_wallmode("Span"), WallMode::Span);
    assert_eq!(parse_wallmode("Stretch"), WallMode::Stretch);
    assert_eq!(parse_wallmode("Tile"), WallMode::Tile);
}

#[test]
fn unrecognized_wallmode_falls_back_to_center() {
    assert_eq!(parse_wallmode("fit"), WallMode::Center);
    assert_eq!(parse_wallmode(""), WallMode::Center);
    assert_eq!(parse_wallmode("Mosaic"), WallMode::Center);
}
