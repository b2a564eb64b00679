use setup_devbox::generate::{config, ConfigGenerator, GenerationSummary, GenerateError, plural_suffix};

#[test]
fn main_config_names_every_file() {
    let text = config("/home/u/.setup-devbox/configs");
    assert_eq!(
        text,
        "# Main Configuration File\n# This file references all other configuration files\n\ntools: /home/u/.setup-devbox/configs/tools.yaml\nsettings: /home/u/.setup-devbox/configs/settings.yaml\nshellrc: /home/u/.setup-devbox/configs/shellrc.yaml\nfonts: /home/u/.setup-devbox/configs/fonts.yaml\n"
    );
}

#[test]
fn summary_totals_and_success() {
    let s = GenerationSummary { created: 3, skipped: 1, failed: 1 };
    assert_eq!(s.total(), 5);
    assert!(!s.is_success());
    assert_eq!(s.text(), "created: 3, skipped: 1, failed: 1, total: 5");
    let ok = GenerationSummary { created: 5, skipped: 0, failed: 0 };
    assert!(ok.is_success());
}

#[test]
fn generation_counts_outcomes_and_stops_on_directory_error() {
    let g = ConfigGenerator::new("cfg".to_string());
    assert_eq!(g.config_files.len(), 5);
    assert_eq!(g.config_files[4].filename, "config.yaml");
    assert_eq!(g.file_path(0), "cfg/tools.yaml");
    let results = vec![
        Ok(true),
        Ok(false),
        Err(GenerateError::FileWrite("disk full".to_string())),
        Ok(true),
        Ok(true),
    ];
    match g.generate(Ok(()), &results) {
        Ok(s) => {
            assert_eq!((s.created, s.skipped, s.failed), (3, 1, 1));
        }
        Err(_) => panic!("expected a summary"),
    }
    let failed = g.generate(Err(GenerateError::DirectoryCreation("denied".to_string())), &results);
    match failed {
        Err(e) => assert_eq!(e.message(), "Failed to create directory: denied"),
        Ok(_) => panic!("expected the directory error"),
    }
    assert_eq!(plural_suffix(1), "");
    assert_eq!(plural_suffix(2), "s");
}
