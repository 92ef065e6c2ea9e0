use meta_export::error::MetaError;
use meta_export::texture::TextureKind;
use meta_export::trigger::TriggerKind;

#[test]
fn make_decodes_the_three_sheets() {
    assert_eq!(TextureKind::make(0), Ok(TextureKind::Base));
    assert_eq!(TextureKind::make(1), Ok(TextureKind::Var));
    assert_eq!(TextureKind::make(2), Ok(TextureKind::Anm));
}

#[test]
fn make_rejects_every_other_byte() {
    for raw in 3..=255usize {
        assert_eq!(TextureKind::make(raw), Err(MetaError::InvalidTilesetIndex));
    }
    assert_eq!(TextureKind::make(256), Err(MetaError::InvalidTilesetIndex));
    assert_eq!(TextureKind::make(usize::MAX), Err(MetaError::InvalidTilesetIndex));
}

#[test]
fn raw_number_and_sheet_agree() {
    for kind in [TextureKind::Base, TextureKind::Var, TextureKind::Anm] {
        assert_eq!(TextureKind::make(kind.get_raw()), Ok(kind));
    }
    assert_eq!(TextureKind::Base.get_raw(), 0);
    assert_eq!(TextureKind::Var.get_raw(), 1);
    assert_eq!(TextureKind::Anm.get_raw(), 2);
}

#[test]
fn suffix_of_each_sheet() {
    assert_eq!(TextureKind::Base.get_suffix(), "base");
    assert_eq!(TextureKind::Var.get_suffix(), "var");
    assert_eq!(TextureKind::Anm.get_suffix(), "anm");
}

#[test]
fn default_sheet_is_base() {
    assert_eq!(TextureKind::default(), TextureKind::Base);
}

#[test]
fn fixed_trigger_codes() {
    assert_eq!(TriggerKind::new(0x00), TriggerKind::Passable);
    assert_eq!(TriggerKind::new(0x01), TriggerKind::Blocker);
    assert_eq!(TriggerKind::new(0x02), TriggerKind::UpperLowerDelta);
    assert_eq!(TriggerKind::new(0x03), TriggerKind::LowerUpperDelta);
    assert_eq!(TriggerKind::new(0x04), TriggerKind::Hidden);
    assert_eq!(TriggerKind::new(0x05), TriggerKind::Bridge);
    assert_eq!(TriggerKind::new(0x06), TriggerKind::Damage);
    assert_eq!(TriggerKind::new(0x07), TriggerKind::Unknown7);
    assert_eq!(TriggerKind::new(0x10), TriggerKind::BottomTransparent);
    assert_eq!(TriggerKind::new(0x11), TriggerKind::BottomHidden);
    assert_eq!(TriggerKind::new(0x12), TriggerKind::Unknown12);
    assert_eq!(TriggerKind::new(0x13), TriggerKind::Unknown13);
}

#[test]
fn treasure_range_keeps_the_masked_byte() {
    for raw in 0x20..=0x3Fu8 {
        assert_eq!(TriggerKind::new(raw), TriggerKind::Treasure(raw & 0x3F));
        assert_eq!(TriggerKind::new(raw), TriggerKind::Treasure(raw));
    }
    assert_eq!(TriggerKind::new(0x20), TriggerKind::Treasure(0x20));
    assert_eq!(TriggerKind::new(0x3F), TriggerKind::Treasure(0x3F));
}

#[test]
fn exit_range_keeps_the_masked_byte() {
    for raw in 0x40..=0x5Fu8 {
        assert_eq!(TriggerKind::new(raw), TriggerKind::Exit(raw & 0x3F));
        assert_eq!(TriggerKind::new(raw), TriggerKind::Exit(raw - 0x40));
    }
    assert_eq!(TriggerKind::new(0x40), TriggerKind::Exit(0));
    assert_eq!(TriggerKind::new(0x5F), TriggerKind::Exit(0x1F));
}

#[test]
fn every_other_byte_is_unknown() {
    for raw in 0..=255u8 {
        let fixed = raw <= 0x07 || (0x10..=0x13).contains(&raw);
        let ranged = (0x20..=0x5F).contains(&raw);
        if !fixed && !ranged {
            assert_eq!(TriggerKind::new(raw), TriggerKind::Unknown(raw));
        }
    }
    assert_eq!(TriggerKind::new(0x08), TriggerKind::Unknown(0x08));
    assert_eq!(TriggerKind::new(0x0F), TriggerKind::Unknown(0x0F));
    assert_eq!(TriggerKind::new(0x14), TriggerKind::Unknown(0x14));
    assert_eq!(TriggerKind::new(0x1F), TriggerKind::Unknown(0x1F));
    assert_eq!(TriggerKind::new(0x60), TriggerKind::Unknown(0x60));
    assert_eq!(TriggerKind::new(0xFF), TriggerKind::Unknown(0xFF));
}

#[test]
fn no_byte_decodes_to_uninitialized_and_no_two_bytes_agree() {
    for a in 0..=255u8 {
        assert_ne!(TriggerKind::new(a), TriggerKind::Uninitialized);
        for b in 0..a {
            assert_ne!(TriggerKind::new(a), TriggerKind::new(b));
        }
    }
}

#[test]
fn default_trigger_is_uninitialized() {
    assert_eq!(TriggerKind::default(), TriggerKind::Uninitialized);
}
