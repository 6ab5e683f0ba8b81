use binvid::args::{DislodgeParams, EmbedOutputMode, EmbedParams, EmbedPreset};
use binvid::embed::{container_path, input_path, resolution, resolve, sample_path};
use binvid::settings::{Data, OutputMode, Settings};

fn with_preset(preset: EmbedPreset) -> EmbedParams {
    let mut params = EmbedParams::default();
    params.preset = Some(preset);
    params
}

#[test]
fn maximum_density_preset() {
    let (settings, mode) = resolve(&with_preset(EmbedPreset::MaxEfficiency));
    assert_eq!(mode, OutputMode::Color);
    assert_eq!(settings, Settings { size: 1, threads: 8, fps: 10, width: 256, height: 144 });
    assert_eq!(settings.fps as f64, 10.0);
}

#[test]
fn balanced_preset() {
    let (settings, mode) = resolve(&with_preset(EmbedPreset::Optimal));
    assert_eq!(mode, OutputMode::Binary);
    assert_eq!(settings, Settings { size: 2, threads: 8, fps: 10, width: 1280, height: 720 });
    assert_eq!(settings.fps as f64, 10.0);
}

#[test]
fn high_resistance_preset() {
    let (settings, mode) = resolve(&with_preset(EmbedPreset::Paranoid));
    assert_eq!(mode, OutputMode::Binary);
    assert_eq!(settings, Settings { size: 4, threads: 8, fps: 10, width: 1280, height: 720 });
}

#[test]
fn explicit_block_size_overrides_every_preset() {
    for preset in [EmbedPreset::Optimal, EmbedPreset::Paranoid, EmbedPreset::MaxEfficiency] {
        let mut params = with_preset(preset);
        params.block_size = Some(7);
        let (settings, _) = resolve(&params);
        assert_eq!(settings.size, 7);
        assert_eq!(settings.threads, 8);
    }
}

#[test]
fn explicit_values_override_a_preset() {
    let mut params = with_preset(EmbedPreset::MaxEfficiency);
    params.mode = Some(EmbedOutputMode::Binary);
    params.threads = Some(3);
    params.fps = Some(24);
    params.resolution = Some("720p".to_string());
    let (settings, mode) = resolve(&params);
    assert_eq!(mode, OutputMode::Binary);
    assert_eq!(settings, Settings { size: 1, threads: 3, fps: 24, width: 256, height: 144 });
}

#[test]
fn nothing_chosen_gives_the_default_canvas_and_nothing_else() {
    let (settings, mode) = resolve(&EmbedParams::default());
    assert_eq!(mode, OutputMode::Binary);
    assert_eq!(settings, Settings { size: 0, threads: 0, fps: 0, width: 640, height: 360 });
}

#[test]
fn overrides_without_a_preset() {
    let mut params = EmbedParams::default();
    params.mode = Some(EmbedOutputMode::Colored);
    params.block_size = Some(-3);
    params.threads = Some(0);
    params.fps = Some(-1);
    params.resolution = Some("480p".to_string());
    let (settings, mode) = resolve(&params);
    assert_eq!(mode, OutputMode::Color);
    assert_eq!(settings, Settings { size: -3, threads: 0, fps: -1, width: 854, height: 480 });
}

#[test]
fn resolution_table() {
    assert_eq!(resolution(&"144p".to_string()), (256, 144));
    assert_eq!(resolution(&"240p".to_string()), (426, 240));
    assert_eq!(resolution(&"360p".to_string()), (640, 360));
    assert_eq!(resolution(&"480p".to_string()), (854, 480));
    assert_eq!(resolution(&"720p".to_string()), (1280, 720));
    assert_eq!(resolution(&"1080p".to_string()), (640, 360));
    assert_eq!(resolution(&"".to_string()), (640, 360));
    assert_eq!(resolution(&"720P".to_string()), (640, 360));
    assert_eq!(resolution(&" 720p".to_string()), (640, 360));
}

#[test]
fn mode_names_convert() {
    assert_eq!(OutputMode::from(EmbedOutputMode::Colored), OutputMode::Color);
    assert_eq!(OutputMode::from(EmbedOutputMode::Binary), OutputMode::Binary);
    let mode: OutputMode = EmbedOutputMode::Colored.into();
    assert_eq!(mode, OutputMode::Color);
}

#[test]
fn settings_constructors() {
    assert_eq!(
        Settings::new(2, 8, 10, 1280, 720),
        Settings { size: 2, threads: 8, fps: 10, width: 1280, height: 720 }
    );
    assert_eq!(
        Settings::default(),
        Settings { size: 0, threads: 0, fps: 0, width: 0, height: 0 }
    );
}

#[test]
fn data_constructors_fill_one_field() {
    let binary = Data::from_binary(vec![true, false]);
    assert_eq!(binary.out_mode, OutputMode::Binary);
    assert_eq!(binary.binary, vec![true, false]);
    assert!(binary.bytes.is_empty());
    let color = Data::from_color(vec![1, 2, 3]);
    assert_eq!(color.out_mode, OutputMode::Color);
    assert_eq!(color.bytes, vec![1, 2, 3]);
    assert!(color.binary.is_empty());
}

#[test]
fn embed_paths() {
    assert_eq!(input_path(&EmbedParams::default()), "test_file.txt");
    let mut params = EmbedParams::default();
    params.in_path = Some("data/in.bin".to_string());
    assert_eq!(input_path(&params), "data/in.bin");
    assert_eq!(container_path(), "output.binvid");
    assert_eq!(sample_path("output.binvid"), "output.binvid_sample.png");
    assert_eq!(sample_path(""), "_sample.png");
}

#[test]
fn dislodge_paths() {
    let unset = DislodgeParams::default();
    assert_eq!(binvid::dislodge::container_path(&unset), "output.binvid");
    assert_eq!(binvid::dislodge::output_path(&unset), "extracted_file.bin");
    let set =
        DislodgeParams { in_path: Some("a.binvid".to_string()), out_path: Some("b".to_string()) };
    assert_eq!(binvid::dislodge::container_path(&set), "a.binvid");
    assert_eq!(binvid::dislodge::output_path(&set), "b");
}
