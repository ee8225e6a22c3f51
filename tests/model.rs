use stellarforge::model::{SpectralClass, SystemType};

#[test]
fn system_type_star_counts_and_labels() {
    assert_eq!(SystemType::Solo.num_stars(), 1);
    assert_eq!(SystemType::Binary.num_stars(), 2);
    assert_eq!(SystemType::Trinary.num_stars(), 3);
    assert_eq!(SystemType::Solo.to_string(), "solo");
    assert_eq!(SystemType::Binary.to_string(), "binary");
    assert_eq!(SystemType::Trinary.to_string(), "trinary");
}

#[test]
fn spectral_class_letters_and_weights() {
    let classes = SpectralClass::all_classes();
    let letters: String = classes.iter().map(|c| c.to_char()).collect();
    assert_eq!(letters, "OBAFGKM");
    let weights: Vec<u32> = classes.iter().map(|c| c.weight()).collect();
    assert_eq!(weights, vec![1, 2, 4, 7, 11, 15, 20]);
    assert_eq!(weights.iter().sum::<u32>(), 60);
    assert_eq!(SpectralClass::M.weight(), 20 * SpectralClass::O.weight());
}
