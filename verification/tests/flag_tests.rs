use wasm_opt::arg::{classify, is_pending, Arg, FlagKind};
use wasm_opt::options::{FileType, OptimizationOptions, OptimizeLevel, ShrinkLevel};
use wasm_opt::profiles::Profile;
use wasm_opt::text::text_eq;

#[test]
fn text_eq_compares_characters() {
    assert!(text_eq("", ""));
    assert!(text_eq("-o", "-o"));
    assert!(!text_eq("-o", "-O"));
    assert!(!text_eq("-o", "-os"));
    assert!(!text_eq("-os", "-o"));
    assert!(text_eq("héllo", "héllo"));
    assert!(!text_eq("héllo", "hèllo"));
}

#[test]
fn value_flags_are_classified() {
    assert_eq!(classify("--output"), FlagKind::Output);
    assert_eq!(classify("-o"), FlagKind::Output);
    assert_eq!(classify("--input-source-map"), FlagKind::InputSourceMap);
    assert_eq!(classify("-ism"), FlagKind::InputSourceMap);
    assert_eq!(classify("--output-source-map"), FlagKind::OutputSourceMap);
    assert_eq!(classify("-osm"), FlagKind::OutputSourceMap);
}

#[test]
fn plain_flags_are_classified() {
    assert_eq!(classify("--emit-text"), FlagKind::EmitText);
    assert_eq!(classify("-S"), FlagKind::EmitText);
    assert_eq!(classify("--quiet"), FlagKind::Quiet);
    assert_eq!(classify("-q"), FlagKind::Quiet);
}

#[test]
fn profile_flags_are_classified() {
    assert_eq!(classify("-O"), FlagKind::ApplyProfile(Profile::optimize_for_size()));
    assert_eq!(classify("-O0"), FlagKind::ApplyProfile(Profile::opt_level_0()));
    assert_eq!(classify("-O1"), FlagKind::ApplyProfile(Profile::opt_level_1()));
    assert_eq!(classify("-O2"), FlagKind::ApplyProfile(Profile::opt_level_2()));
    assert_eq!(classify("-O3"), FlagKind::ApplyProfile(Profile::opt_level_3()));
    assert_eq!(classify("-O4"), FlagKind::ApplyProfile(Profile::opt_level_4()));
    assert_eq!(classify("-Os"), FlagKind::ApplyProfile(Profile::optimize_for_size()));
    assert_eq!(classify("-Oz"), FlagKind::ApplyProfile(Profile::optimize_for_size_aggressively()));
}

#[test]
fn pending_flags_are_classified() {
    let pending = [
        "--output-source-map-url", "-osu",
        "--optimize-level", "-ol",
        "--shrink-level", "-s",
        "--debuginfo", "-g",
        "--always-inline-max-function-size", "-aimfs",
        "--flexible-inline-max-function-size", "-fimfs",
        "--one-caller-inline-max-function-size", "-ocifms",
        "--inline-functions-with-loops", "-ifwl",
        "--partial-inlining-ifs", "-pii",
        "--traps-never-happen", "-tnh",
        "--low-memory-unused", "-lmu",
        "--fast-math", "-ffm",
        "--zero-filled-memory", "-uim",
        "--mvp-features", "-mvp",
        "--all-features", "-all",
        "--no-validation", "-n",
        "--pass-arg", "-pa",
    ];
    assert_eq!(pending.len(), 34);
    for flag in pending {
        assert!(is_pending(flag));
        assert_eq!(classify(flag), FlagKind::Pending);
    }
    assert!(!is_pending("-o"));
    assert!(!is_pending("-O2"));
    assert!(!is_pending("module.wasm"));
}

#[test]
fn other_text_is_positional() {
    assert_eq!(classify("a.wasm"), FlagKind::Positional);
    assert_eq!(classify(""), FlagKind::Positional);
    assert_eq!(classify("-O5"), FlagKind::Positional);
    assert_eq!(classify("--Output"), FlagKind::Positional);
    assert_eq!(classify("-o "), FlagKind::Positional);
    assert_eq!(classify("--vacuum"), FlagKind::Positional);
}

#[test]
fn kind_of_an_argument() {
    assert_eq!(Arg::Text("-o".to_string()).kind(), FlagKind::Output);
    assert_eq!(Arg::Text("x".to_string()).kind(), FlagKind::Positional);
    assert_eq!(Arg::Opaque(b"-o".to_vec()).kind(), FlagKind::Positional);
    assert_eq!(Arg::Opaque(vec![0xff]).kind(), FlagKind::Positional);
}

#[test]
fn clone_keeps_the_argument() {
    let a = Arg::Text("a.wasm".to_string());
    let b = Arg::Opaque(vec![1, 2, 255]);
    assert_eq!(a.clone(), a);
    assert_eq!(b.clone(), b);
}

#[test]
fn profiles_by_name() {
    assert_eq!(Profile::by_name("-O"), Some(Profile::default()));
    assert_eq!(Profile::by_name("-Os"), Some(Profile::optimize_for_size()));
    assert_eq!(Profile::by_name("-Oz"), Some(Profile::optimize_for_size_aggressively()));
    assert_eq!(Profile::by_name("-O0"), Some(Profile::opt_level_0()));
    assert_eq!(Profile::by_name("-O4"), Some(Profile::opt_level_4()));
    assert_eq!(Profile::by_name("-O5"), None);
    assert_eq!(Profile::by_name("O2"), None);
    assert_eq!(Profile::by_name(""), None);
}

#[test]
fn profile_values() {
    assert_eq!(
        Profile::optimize_for_size(),
        Profile { optimize_level: OptimizeLevel::Level2, shrink_level: ShrinkLevel::Level1, add_default_passes: true }
    );
    assert_eq!(
        Profile::optimize_for_size_aggressively(),
        Profile { optimize_level: OptimizeLevel::Level2, shrink_level: ShrinkLevel::Level2, add_default_passes: true }
    );
    assert_eq!(
        Profile::opt_level_0(),
        Profile { optimize_level: OptimizeLevel::Level0, shrink_level: ShrinkLevel::Level0, add_default_passes: false }
    );
    assert_eq!(
        Profile::opt_level_1(),
        Profile { optimize_level: OptimizeLevel::Level1, shrink_level: ShrinkLevel::Level0, add_default_passes: true }
    );
    assert_eq!(
        Profile::opt_level_3(),
        Profile { optimize_level: OptimizeLevel::Level3, shrink_level: ShrinkLevel::Level0, add_default_passes: true }
    );
    assert_eq!(Profile::default(), Profile::optimize_for_size());
}

#[test]
fn default_options() {
    assert_eq!(
        OptimizationOptions::default(),
        OptimizationOptions {
            writer_file_type: FileType::Wasm,
            optimize_level: OptimizeLevel::Level2,
            shrink_level: ShrinkLevel::Level1,
            add_default_passes: true,
        }
    );
}

#[test]
fn applying_a_profile_overwrites_its_three_settings() {
    let mut options = OptimizationOptions::default();
    options.writer_file_type(FileType::Wat);
    Profile::opt_level_0().apply_to(&mut options);
    assert_eq!(
        options,
        OptimizationOptions {
            writer_file_type: FileType::Wat,
            optimize_level: OptimizeLevel::Level0,
            shrink_level: ShrinkLevel::Level0,
            add_default_passes: false,
        }
    );
}

#[test]
fn last_applied_profile_wins() {
    let mut both = OptimizationOptions::default();
    Profile::opt_level_0().apply_to(&mut both);
    Profile::opt_level_3().apply_to(&mut both);
    let mut last = OptimizationOptions::default();
    Profile::opt_level_3().apply_to(&mut last);
    assert_eq!(both, last);

    let mut reversed = OptimizationOptions::default();
    Profile::opt_level_3().apply_to(&mut reversed);
    Profile::opt_level_0().apply_to(&mut reversed);
    assert_eq!(reversed.optimize_level, OptimizeLevel::Level0);
    assert!(!reversed.add_default_passes);
}

#[test]
fn writer_file_type_changes_only_the_format() {
    let mut options = OptimizationOptions::default();
    options.writer_file_type(FileType::Any);
    assert_eq!(options.writer_file_type, FileType::Any);
    assert_eq!(options.optimize_level, OptimizeLevel::Level2);
    assert_eq!(options.shrink_level, ShrinkLevel::Level1);
    assert!(options.add_default_passes);
}
