use crsm7::axis::StateAxis;
use crsm7::boot::BootStep;

#[test]
fn test_axis_from_known_tags() {
    assert_eq!(StateAxis::from_name("coherence"), Some(StateAxis::Coherence));
    assert_eq!(StateAxis::from_name("decoherence"), Some(StateAxis::Decoherence));
    assert_eq!(StateAxis::from_name("information"), Some(StateAxis::Information));
    assert_eq!(StateAxis::from_name("emergence"), Some(StateAxis::Emergence));
    assert_eq!(StateAxis::from_name("polarity"), Some(StateAxis::Polarity));
    assert_eq!(StateAxis::from_name("torsion"), Some(StateAxis::Torsion));
    assert_eq!(StateAxis::from_name("epoch"), Some(StateAxis::Epoch));
}

#[test]
fn test_axis_from_unknown_tag_is_none() {
    assert_eq!(StateAxis::from_name("velocity"), None);
    assert_eq!(StateAxis::from_name(""), None);
    assert_eq!(StateAxis::from_name("Coherence"), None);
}

#[test]
fn test_axis_indices_follow_canonical_order() {
    assert_eq!(StateAxis::Coherence.index(), 0);
    assert_eq!(StateAxis::Decoherence.index(), 1);
    assert_eq!(StateAxis::Information.index(), 2);
    assert_eq!(StateAxis::Emergence.index(), 3);
    assert_eq!(StateAxis::Polarity.index(), 4);
    assert_eq!(StateAxis::Torsion.index(), 5);
    assert_eq!(StateAxis::Epoch.index(), 6);
}

#[test]
fn test_boot_step_records_fields() {
    let step = BootStep::new(2, "Ω_lock", true, "Locking torsion".to_string());
    assert_eq!(step.step, 2);
    assert_eq!(step.name, "Ω_lock");
    assert!(step.success);
    assert_eq!(step.message, "Locking torsion");
}
