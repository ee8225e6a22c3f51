use rand::rngs::StdRng;
use rand::SeedableRng;
use stellarforge::generation::{
    count_system_types, determine_system_type, generate_spectral_class, generate_spectral_type,
    generate_star_systems, select_volume, spectral_class_at, spectral_weights,
    system_type_from_roll,
};
use stellarforge::model::{GenerationError, SpectralClass, SystemType, Volume};
use uuid::Uuid;

#[test]
fn test_system_type_distribution() {
    let mut rng = StdRng::seed_from_u64(1);
    let mut solo_count = 0;
    let mut binary_count = 0;
    let mut trinary_count = 0;

    for _ in 0..10000 {
        match determine_system_type(&mut rng) {
            SystemType::Solo => solo_count += 1,
            SystemType::Binary => binary_count += 1,
            SystemType::Trinary => trinary_count += 1,
        }
    }

    let total = 10000.0;
    let solo_pct = (solo_count as f64 / total) * 100.0;
    let binary_pct = (binary_count as f64 / total) * 100.0;
    let trinary_pct = (trinary_count as f64 / total) * 100.0;

    println!("Solo: {:.1}%, Binary: {:.1}%, Trinary: {:.1}%", solo_pct, binary_pct, trinary_pct);

    assert!(solo_pct >= 69.0 && solo_pct <= 79.0, "Solo systems should be around 74%");
    assert!(binary_pct >= 20.0 && binary_pct <= 30.0, "Binary systems should be around 25%");
    assert!(trinary_pct >= 0.0 && trinary_pct <= 6.0, "Trinary systems should be around 1%");
}

#[test]
fn test_spectral_class_distribution() {
    let mut rng = StdRng::seed_from_u64(2);
    let mut counts = std::collections::HashMap::new();

    for _ in 0..10000 {
        let class = generate_spectral_class(&mut rng);
        *counts.entry(class).or_insert(0) += 1;
    }

    let m_count = counts.get(&SpectralClass::M).unwrap_or(&0);
    let o_count = counts.get(&SpectralClass::O).unwrap_or(&0);

    println!("M stars: {}, O stars: {}, ratio: {:.1}", m_count, o_count, *m_count as f64 / *o_count as f64);

    assert!(*m_count > *o_count * 15, "M stars should be much more common");
}

#[test]
fn test_generate_star_systems_sphere() {
    let mut rng = StdRng::seed_from_u64(3);
    let project_id = Uuid::new_v4();
    let (systems, stars) =
        generate_star_systems(project_id, 100, "sphere", None::<(f64, f64, f64)>, Some(100.0), &mut rng)
            .unwrap();

    assert_eq!(systems.len(), 100);
    assert!(stars.len() >= 100 && stars.len() <= 300);

    for system in &systems {
        assert_eq!(system.project_id, project_id);
    }

    for star in &stars {
        assert_eq!(star.project_id, project_id);
    }
}

#[test]
fn test_count_system_types() {
    let mut rng = StdRng::seed_from_u64(4);
    let project_id = Uuid::new_v4();
    let (systems, _) =
        generate_star_systems(project_id, 100, "sphere", None::<(f64, f64, f64)>, Some(100.0), &mut rng)
            .unwrap();

    let (solo, binary, trinary) = count_system_types(&systems);

    assert_eq!(solo + binary + trinary, 100);
    assert!(solo >= 60 && solo <= 85);
    assert!(binary >= 15 && binary <= 35);
    assert!(trinary >= 0 && trinary <= 10);
}

#[test]
fn cube_catalog_has_one_to_three_stars_per_system() {
    let mut rng = StdRng::seed_from_u64(5);
    let project_id = Uuid::new_v4();
    let (systems, stars) = generate_star_systems(
        project_id,
        50,
        "cube",
        Some((100.0, 100.0, 100.0)),
        None::<f64>,
        &mut rng,
    )
    .unwrap();

    assert_eq!(systems.len(), 50);
    assert!(stars.len() >= 50 && stars.len() <= 150);
}

#[test]
fn catalog_stars_follow_their_systems_in_order() {
    let mut rng = StdRng::seed_from_u64(6);
    let project_id = Uuid::new_v4();
    let (systems, stars) =
        generate_star_systems(project_id, 30, "sphere", None::<(f64, f64, f64)>, Some(5.0), &mut rng)
            .unwrap();
    let mut at = 0;
    for (i, system) in systems.iter().enumerate() {
        assert_eq!(system.name, format!("S{:04}", i + 1));
        assert!(system.id.is_some());
        let n = system.system_type.num_stars();
        for k in 0..n {
            let star = &stars[at + k];
            assert_eq!(star.system_id, system.id.unwrap());
            assert_eq!(star.project_id, project_id);
            assert_eq!(star.luminosity_class, "V");
            let sub = star.spectral_subclass.unwrap();
            assert!((0..=9).contains(&sub));
            let expected = if n == 1 {
                system.name.clone()
            } else {
                format!("{}{}", system.name, ['a', 'b', 'c'][k])
            };
            assert_eq!(star.name, expected);
        }
        at += n;
    }
    assert_eq!(at, stars.len());
}

#[test]
fn cube_without_sizes_is_missing_parameters() {
    let mut rng = StdRng::seed_from_u64(7);
    let r = generate_star_systems(Uuid::new_v4(), 10, "cube", None::<(f64, f64, f64)>, None::<f64>, &mut rng);
    assert!(matches!(r, Err(GenerationError::MissingShapeParameters)));
}

#[test]
fn sphere_without_radius_is_missing_parameters() {
    let mut rng = StdRng::seed_from_u64(8);
    let r = generate_star_systems(Uuid::new_v4(), 10, "sphere", Some((1.0, 1.0, 1.0)), None::<f64>, &mut rng);
    assert!(matches!(r, Err(GenerationError::MissingShapeParameters)));
}

#[test]
fn unknown_shape_is_invalid_even_for_zero_systems() {
    let mut rng = StdRng::seed_from_u64(9);
    let r = generate_star_systems(Uuid::new_v4(), 0, "torus", Some((1.0, 1.0, 1.0)), Some(1.0), &mut rng);
    assert!(matches!(r, Err(GenerationError::InvalidShape)));
    let r = generate_star_systems(Uuid::new_v4(), 5, "Cube", Some((1.0, 1.0, 1.0)), Some(1.0), &mut rng);
    assert!(matches!(r, Err(GenerationError::InvalidShape)));
}

#[test]
fn zero_systems_give_an_empty_catalog() {
    let mut rng = StdRng::seed_from_u64(10);
    let (systems, stars) =
        generate_star_systems(Uuid::new_v4(), 0, "sphere", None::<(f64, f64, f64)>, Some(1.0), &mut rng).unwrap();
    assert!(systems.is_empty());
    assert!(stars.is_empty());
    assert_eq!(count_system_types(&systems), (0, 0, 0));
}

#[test]
fn select_volume_picks_the_named_shape() {
    assert_eq!(select_volume("cube", Some((1, 2, 3)), Some(4)), Ok(Volume::Cuboid((1, 2, 3))));
    assert_eq!(select_volume("sphere", Some((1, 2, 3)), Some(4)), Ok(Volume::Sphere(4)));
    assert_eq!(select_volume::<i32, i32>("sphere", Some(1), None), Err(GenerationError::MissingShapeParameters));
    assert_eq!(select_volume::<i32, i32>("", None, None), Err(GenerationError::InvalidShape));
}

#[test]
fn roll_boundaries_select_the_system_type() {
    assert_eq!(system_type_from_roll(0), SystemType::Solo);
    assert_eq!(system_type_from_roll(73), SystemType::Solo);
    assert_eq!(system_type_from_roll(74), SystemType::Binary);
    assert_eq!(system_type_from_roll(98), SystemType::Binary);
    assert_eq!(system_type_from_roll(99), SystemType::Trinary);
}

#[test]
fn weight_table_and_class_positions() {
    assert_eq!(spectral_weights(), vec![1, 2, 4, 7, 11, 15, 20]);
    assert_eq!(spectral_class_at(0), SpectralClass::O);
    assert_eq!(spectral_class_at(3), SpectralClass::F);
    assert_eq!(spectral_class_at(6), SpectralClass::M);
}

#[test]
fn subclass_digits_stay_in_range_and_vary() {
    let mut rng = StdRng::seed_from_u64(11);
    let mut seen = [false; 10];
    for _ in 0..2000 {
        let (_, sub) = generate_spectral_type(&mut rng);
        assert!((0..=9).contains(&sub));
        seen[sub as usize] = true;
    }
    assert!(seen.iter().all(|s| *s));
}

#[test]
fn system_type_draws_reach_every_type() {
    let mut rng = StdRng::seed_from_u64(12);
    let mut seen = [false; 3];
    for _ in 0..5000 {
        let t = determine_system_type(&mut rng);
        seen[t.num_stars() - 1] = true;
    }
    assert!(seen.iter().all(|s| *s));
}

#[test]
fn count_by_type_on_a_built_list() {
    let mut rng = StdRng::seed_from_u64(13);
    let pid = Uuid::new_v4();
    let (mut systems, _) =
        generate_star_systems(pid, 4, "cube", Some((1.0, 1.0, 1.0)), None::<f64>, &mut rng).unwrap();
    systems[0].system_type = SystemType::Solo;
    systems[1].system_type = SystemType::Trinary;
    systems[2].system_type = SystemType::Trinary;
    systems[3].system_type = SystemType::Binary;
    assert_eq!(count_system_types(&systems), (1, 1, 2));
}
