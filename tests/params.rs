use whisper_ware::params::{ParamId, ParameterSet, PARAM_COUNT};

#[test]
fn defaults_hold_the_documented_values() {
    let set = ParameterSet::defaults();
    let expected: Vec<u32> = vec![
        20.0f32.to_bits(),
        1.0f32.to_bits(),
        0.48333332f32.to_bits(),
        1.0f32.to_bits(),
        0.0f32.to_bits(),
        0.09090909f32.to_bits(),
        0.33333334f32.to_bits(),
        1.0f32.to_bits(),
        1.0f32.to_bits(),
        0.0f32.to_bits(),
        1.0f32.to_bits(),
    ];
    assert_eq!(set.values, expected);
    assert_eq!(set.input_device, "Default");
    assert_eq!(set.output_device, "Default");
}

#[test]
fn index_table_round_trips() {
    for i in 0..PARAM_COUNT {
        let id = ParamId::from_index(i).unwrap();
        assert_eq!(id.index(), i);
    }
    assert_eq!(ParamId::from_index(PARAM_COUNT), None);
    assert_eq!(ParamId::from_index(usize::MAX), None);
    assert_eq!(ParamId::Makeup.index(), 6);
    assert_eq!(ParamId::from_index(9), Some(ParamId::Sidechain));
}

#[test]
fn value_reads_by_identifier() {
    let set = ParameterSet::defaults();
    assert_eq!(set.value(ParamId::SidechainHpf), 20.0f32.to_bits());
    assert_eq!(set.value(ParamId::Release), 0.09090909f32.to_bits());
    assert_eq!(ParamId::Sensitivity.default_bits(), 0.48333332f32.to_bits());
}

#[test]
fn saved_record_round_trips() {
    let mut set = ParameterSet::defaults();
    for i in 0..PARAM_COUNT {
        set.values[i] = (i as f32 * 0.25 + 0.125).to_bits();
    }
    set.input_device = String::from("Microphone (USB)");
    set.output_device = String::from("Speakers");
    let saved = set.to_saved();
    assert_eq!(saved.sidechain_hpf, 0.125f32.to_bits());
    assert_eq!(saved.full_bandwidth, 2.625f32.to_bits());
    assert_eq!(saved.makeup, 1.625f32.to_bits());
    let back = ParameterSet::from_saved(saved);
    assert_eq!(back.values, set.values);
    assert_eq!(back.input_device, "Microphone (USB)");
    assert_eq!(back.output_device, "Speakers");
}

#[test]
fn missing_record_falls_back_to_defaults() {
    let set = ParameterSet::from_saved_or_defaults(None);
    assert_eq!(set.values, ParameterSet::defaults().values);
    assert_eq!(set.input_device, "Default");
    let mut record = ParameterSet::defaults().to_saved();
    record.mix = 0.5f32.to_bits();
    record.output_device = String::from("Phones");
    let set = ParameterSet::from_saved_or_defaults(Some(record));
    assert_eq!(set.value(ParamId::Mix), 0.5f32.to_bits());
    assert_eq!(set.output_device, "Phones");
}
