use lib::buffer::{broadcast_lane, propagate_channels};
use lib::caps::MAX_CHANNELS;
use lib::executor::Executor;
use lib::messages::{decode_batch, encode_batch, Msg, MsgTag, MSG_SIZE};
use lib::meters::{decode_meters, encode_meters, MeterEntry, SCOPE_LEN};
use lib::modules::ModuleKindId;
use lib::plan::{
    decode_plan, encode_plan, ModuleInit, PlanStep, MAX_BUFFERS, MAX_PORTS_IN, MAX_PORTS_OUT,
    NO_BUFFER, TRASH_BUFFER,
};

#[test]
fn msg_is_32_bytes() {
    assert_eq!(MSG_SIZE, 32);
}

#[test]
fn messages_roundtrip() {
    let msgs = vec![
        Msg::set_param(3, 1, 0.75f32.to_bits()),
        Msg::note_on(60, 100, 17),
        Msg::note_off(60, 99),
        Msg::all_notes_off(),
    ];
    let bytes = encode_batch(&msgs);
    let decoded: Vec<Msg> = decode_batch(&bytes);
    assert_eq!(decoded.len(), 4);
    assert_eq!(decoded[0].tag, MsgTag::SetParam.code());
    assert_eq!(f32::from_bits(decoded[0].value), 0.75);
    assert_eq!(decoded[1].a, 60);
    assert_eq!(decoded[1].b, 100);
    assert_eq!(MsgTag::from_u32(decoded[3].tag), Some(MsgTag::AllNotesOff));
}

#[test]
fn partial_trailing_record_is_ignored() {
    let bytes = encode_batch(&[Msg::all_notes_off(), Msg::set_param(0, 0, 1.0f32.to_bits())]);
    let truncated = &bytes[..40];
    assert_eq!(decode_batch(truncated).len(), 1);
}

#[test]
fn meters_roundtrip() {
    let mut e = MeterEntry { slot: 7, peak: 4.2f32.to_bits(), ..MeterEntry::default() };
    e.scope[0] = (-1.5f32).to_bits();
    e.scope[SCOPE_LEN - 1] = 2.5f32.to_bits();
    let bytes = encode_meters(&[e, MeterEntry::default()]);
    let decoded = decode_meters(&bytes).expect("decodes");
    assert_eq!(decoded.len(), 2);
    assert_eq!(decoded[0].slot, 7);
    assert_eq!(f32::from_bits(decoded[0].peak), 4.2);
    assert_eq!(f32::from_bits(decoded[0].scope[SCOPE_LEN - 1]), 2.5);
}

#[test]
fn meters_rejects_garbage() {
    assert!(decode_meters(&[]).is_none());
    let mut bytes = encode_meters(&[MeterEntry::default()]);
    bytes[0] = 9; // wrong tag
    assert!(decode_meters(&bytes).is_none());
    let bytes = encode_meters(&[MeterEntry::default()]);
    assert!(decode_meters(&bytes[..bytes.len() - 1]).is_none());
}

#[test]
fn kind_roundtrips() {
    for kind in ModuleKindId::all() {
        assert_eq!(ModuleKindId::from_u16(kind.id()), Some(kind));
        assert_eq!(ModuleKindId::from_serial_name(kind.serial_name()), Some(kind));
        assert_eq!(kind.desc().kind, kind);
    }
}

#[test]
fn port_counts_fit_plan_limits() {
    for kind in ModuleKindId::all() {
        let d = kind.desc();
        assert!(d.inputs.len() <= MAX_PORTS_IN, "{}", d.name);
        assert!(d.outputs.len() <= MAX_PORTS_OUT, "{}", d.name);
    }
}

#[test]
fn plan_roundtrip() {
    let modules = [ModuleInit { slot: 0, kind: 0 }, ModuleInit { slot: 3, kind: 6 }];
    let mut step = PlanStep::default();
    step.slot = 3;
    step.kind = 6;
    step.inputs[0] = 42;
    let blob = encode_plan(7, &modules, &[step]);

    let view = decode_plan(&blob).expect("decodes");
    assert_eq!(view.header.epoch, 7);
    assert_eq!(view.modules.len(), 2);
    assert_eq!(view.modules[1].slot, 3);
    assert_eq!(view.steps.len(), 1);
    assert_eq!(view.steps[0].inputs[0], 42);
    assert_eq!(view.steps[0].inputs[1], NO_BUFFER);
    assert_eq!(view.steps[0].outputs[1], TRASH_BUFFER + 1);
}

#[test]
fn plan_rejects_garbage() {
    assert!(decode_plan(&[]).is_none());
    assert!(decode_plan(&[1, 2, 3]).is_none());
    // Wrong tag.
    let blob = encode_plan(0, &[], &[]);
    let mut bad = blob.clone();
    bad[0] = 5;
    assert!(decode_plan(&bad).is_none());
    // Truncated payload.
    let blob = encode_plan(0, &[ModuleInit { slot: 0, kind: 0 }], &[]);
    assert!(decode_plan(&blob[..blob.len() - 1]).is_none());
}

#[test]
fn mono_broadcasts_to_all_lanes() {
    for ch in 0..MAX_CHANNELS {
        assert_eq!(broadcast_lane(1, ch), 0);
    }
}

#[test]
fn poly_clamps_to_last_channel() {
    assert_eq!(broadcast_lane(4, 2), 2);
    assert_eq!(broadcast_lane(4, 9), 3); // clamped to ch 3
}

#[test]
fn channel_propagation_takes_max() {
    assert_eq!(propagate_channels(&[Some(4), None, Some(8)]), 8);
    assert_eq!(propagate_channels(&[None, None]), 1);
    assert_eq!(propagate_channels(&[]), 1);
}

fn demo_plan() -> Vec<u8> {
    // VCO (slot 0, buffer 8) → VCF (slot 1, buffer 9) → VCA (slot 2,
    // buffer 10) → Output (slot 3).
    let modules = [
        ModuleInit { slot: 0, kind: ModuleKindId::Vco.id() },
        ModuleInit { slot: 1, kind: ModuleKindId::Vcf.id() },
        ModuleInit { slot: 2, kind: ModuleKindId::Vca.id() },
        ModuleInit { slot: 3, kind: ModuleKindId::Output.id() },
    ];
    let mut steps = [PlanStep::default(); 4];
    steps[0] = PlanStep { slot: 0, kind: ModuleKindId::Vco.id(), ..PlanStep::default() };
    steps[0].outputs[0] = 8;
    steps[1] = PlanStep { slot: 1, kind: ModuleKindId::Vcf.id(), ..PlanStep::default() };
    steps[1].inputs[0] = 8;
    steps[1].outputs[0] = 9;
    steps[2] = PlanStep { slot: 2, kind: ModuleKindId::Vca.id(), ..PlanStep::default() };
    steps[2].inputs[0] = 9;
    steps[2].outputs[0] = 10;
    steps[3] = PlanStep { slot: 3, kind: ModuleKindId::Output.id(), ..PlanStep::default() };
    steps[3].inputs[0] = 10;
    encode_plan(1, &modules, &steps)
}

#[test]
fn garbage_plans_are_rejected() {
    let mut ex = Executor::new();
    assert!(!ex.apply_plan(&[1, 2, 3]));
    // Out-of-range buffer index.
    let modules = [ModuleInit { slot: 0, kind: ModuleKindId::Vco.id() }];
    let mut step = PlanStep { slot: 0, kind: ModuleKindId::Vco.id(), ..PlanStep::default() };
    step.outputs[0] = (MAX_BUFFERS + 1) as u16;
    assert!(!ex.apply_plan(&encode_plan(1, &modules, &[step])));
    // Valid plans still apply afterwards.
    assert!(ex.apply_plan(&demo_plan()));
}
