use slicer::Fills;

const ALL: [Fills; 13] = [
    Fills::Rectilinear,
    Fills::Monotonic,
    Fills::Grid,
    Fills::Triangles,
    Fills::Stars,
    Fills::Line,
    Fills::Honeycomb,
    Fills::Hexagonal,
    Fills::Gyroid,
    Fills::Hilbertcurve,
    Fills::Archimedeanchords,
    Fills::Octagramspiral,
    Fills::Scatteredrectilinear,
];

#[test]
fn every_pattern_has_its_name() {
    assert_eq!(Fills::Rectilinear.to_string(), "rectilinear");
    assert_eq!(Fills::Monotonic.to_string(), "monotonic");
    assert_eq!(Fills::Grid.to_string(), "grid");
    assert_eq!(Fills::Triangles.to_string(), "triangles");
    assert_eq!(Fills::Stars.to_string(), "stars");
    assert_eq!(Fills::Line.to_string(), "line");
    assert_eq!(Fills::Honeycomb.to_string(), "honeycomb");
    assert_eq!(Fills::Hexagonal.to_string(), "hexagonal");
    assert_eq!(Fills::Gyroid.to_string(), "gyroid");
    assert_eq!(Fills::Hilbertcurve.to_string(), "hilbertcurve");
    assert_eq!(Fills::Archimedeanchords.to_string(), "archimedeanchords");
    assert_eq!(Fills::Octagramspiral.to_string(), "octagramspiral");
    assert_eq!(Fills::Scatteredrectilinear.to_string(), "scatteredrectilinear");
}

#[test]
fn name_is_the_variant_in_lowercase() {
    for pattern in ALL {
        let variant = format!("{:?}", pattern);
        assert_eq!(pattern.to_string(), variant.to_lowercase());
    }
}

#[test]
fn name_has_lowercase_letters_only() {
    for pattern in ALL {
        let name = pattern.to_string();
        assert!(!name.is_empty());
        assert!(name.chars().all(|c| c.is_ascii_lowercase()), "{}", name);
    }
}

#[test]
fn names_differ_between_patterns() {
    for (i, a) in ALL.iter().enumerate() {
        for (j, b) in ALL.iter().enumerate() {
            assert_eq!(a.to_string() == b.to_string(), i == j);
        }
    }
}
