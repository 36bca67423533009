use neothesia_logic::config::{
    default_background_color, default_chord_identifier, default_color_schema, default_glow,
    default_horizontal_guidelines, default_note_labels, default_octave_shift, default_output,
    default_piano_range, default_polyphony, default_separate_channels, default_velocity_curve,
    default_vertical_guidelines, AppearanceConfig, ColorSchemaV1, DevicesConfig, History,
    LayoutConfig, PcKeyboardConfig, VelocityCurve,
};

#[test]
fn scalar_defaults() {
    assert_eq!(default_piano_range(), (21, 108));
    assert!(!default_note_labels());
    assert_eq!(default_velocity_curve(), VelocityCurve::Linear);
    assert_eq!(VelocityCurve::default(), VelocityCurve::Linear);
    assert_eq!(default_polyphony(), 256);
    assert!(default_vertical_guidelines());
    assert!(default_horizontal_guidelines());
    assert!(default_glow());
    assert!(default_chord_identifier());
    assert!(!default_separate_channels());
    assert_eq!(default_background_color(), (24, 24, 24));
    assert_eq!(default_output(), Some("Buildin Synth".to_string()));
    assert_eq!(default_octave_shift(), 5);
}

#[test]
fn default_color_schemas() {
    let schemas = default_color_schema();
    let expected = [
        ("Default", (0x3c, 0x6e, 0xf0), (0x28, 0x4a, 0xa0)),
        ("Red", (0xf0, 0x3c, 0x3c), (0xa0, 0x28, 0x28)),
        ("Green", (0x3c, 0xf0, 0x6e), (0x28, 0xa0, 0x4a)),
        ("Yellow", (0xf0, 0xf0, 0x3c), (0xa0, 0xa0, 0x28)),
        ("Purple", (0xb0, 0x3c, 0xf0), (0x70, 0x28, 0xa0)),
        ("Cyan", (0x3c, 0xf0, 0xb0), (0x28, 0xa0, 0x70)),
    ];
    assert_eq!(schemas.len(), expected.len());
    for (schema, (name, base, dark)) in schemas.iter().zip(expected.iter()) {
        assert_eq!(schema.name, *name);
        assert_eq!(schema.base, *base);
        assert_eq!(schema.dark, *dark);
    }
    let empty = ColorSchemaV1::default();
    assert_eq!(empty.name, "");
    assert_eq!(empty.base, (0, 0, 0));
    assert_eq!(empty.dark, (0, 0, 0));
}

#[test]
fn section_defaults() {
    let History::V1(history) = History::default();
    assert!(history.last_opened_song.is_none());

    let LayoutConfig::V1(layout) = LayoutConfig::default();
    assert_eq!(layout.range, (21, 108));

    let DevicesConfig::V1(devices) = DevicesConfig::default();
    assert_eq!(devices.output.as_deref(), Some("Buildin Synth"));
    assert!(devices.input.is_none());
    assert!(!devices.separate_channels);

    let AppearanceConfig::V1(appearance) = AppearanceConfig::default();
    assert!(appearance.vertical_guidelines);
    assert!(appearance.horizontal_guidelines);
    assert!(appearance.glow);
    assert!(appearance.chord_identifier);
    assert_eq!(appearance.background_color, (24, 24, 24));
    assert_eq!(appearance.color_schema.len(), 6);
    assert_eq!(appearance.color_schema[0].name, "Default");

    let copy = appearance.clone();
    assert_eq!(copy.color_schema.len(), 6);
    assert_eq!(copy.color_schema[5].name, "Cyan");
    assert_eq!(copy.background_color, (24, 24, 24));

    let PcKeyboardConfig::V1(pc) = PcKeyboardConfig::default();
    assert_eq!(pc.octave_shift, 5);
}
