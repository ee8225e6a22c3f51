use vstd::prelude::*;
use vstd::string::*;

use uuid::Uuid;

verus! {

/// How many stars a system holds.
#[derive(Debug, Clone, Copy, PartialEq, Eq, Structural)]
pub enum SystemType {
    Solo,
    Binary,
    Trinary,
}

/// The number of stars of a system of type `t`.
pub open spec fn star_count(t: SystemType) -> nat {
    match t {
        SystemType::Solo => 1,
        SystemType::Binary => 2,
        SystemType::Trinary => 3,
    }
}

/// The lower-case label under which a system type is stored.
pub open spec fn type_label(t: SystemType) -> Seq<char> {
    match t {
        SystemType::Solo => "solo"@,
        SystemType::Binary => "binary"@,
        SystemType::Trinary => "trinary"@,
    }
}

impl SystemType {
    pub fn to_string(&self) -> (r: String)
        ensures
            r@ == type_label(*self),
    {
        match self {
            SystemType::Solo => String::from_str("solo"),
            SystemType::Binary => String::from_str("binary"),
            SystemType::Trinary => String::from_str("trinary"),
        }
    }

    pub fn num_stars(&self) -> (r: usize)
        ensures
            r == star_count(*self),
    {
        match self {
            SystemType::Solo => 1,
            SystemType::Binary => 2,
            SystemType::Trinary => 3,
        }
    }
}

/// Spectral classes, from the hottest and most massive to the coolest.
#[derive(Debug, Clone, Copy, PartialEq, Eq, Hash, Structural)]
pub enum SpectralClass {
    O,
    B,
    A,
    F,
    G,
    K,
    M,
}

/// The single-letter code of a spectral class.
pub open spec fn class_letter(c: SpectralClass) -> char {
    match c {
        SpectralClass::O => 'O',
        SpectralClass::B => 'B',
        SpectralClass::A => 'A',
        SpectralClass::F => 'F',
        SpectralClass::G => 'G',
        SpectralClass::K => 'K',
        SpectralClass::M => 'M',
    }
}

/// The relative frequency with which a class is generated.
pub open spec fn class_weight(c: SpectralClass) -> u32 {
    match c {
        SpectralClass::O => 1,
        SpectralClass::B => 2,
        SpectralClass::A => 4,
        SpectralClass::F => 7,
        SpectralClass::G => 11,
        SpectralClass::K => 15,
        SpectralClass::M => 20,
    }
}

/// All classes, hottest first.
pub open spec fn class_order() -> Seq<SpectralClass> {
    seq![
        SpectralClass::O,
        SpectralClass::B,
        SpectralClass::A,
        SpectralClass::F,
        SpectralClass::G,
        SpectralClass::K,
        SpectralClass::M,
    ]
}

impl SpectralClass {
    pub fn to_char(&self) -> (r: char)
        ensures
            r == class_letter(*self),
    {
        match self {
            SpectralClass::O => 'O',
            SpectralClass::B => 'B',
            SpectralClass::A => 'A',
            SpectralClass::F => 'F',
            SpectralClass::G => 'G',
            SpectralClass::K => 'K',
            SpectralClass::M => 'M',
        }
    }

    /// Relative weight for random generation: M is twenty times as common as O.
    pub fn weight(&self) -> (r: u32)
        ensures
            r == class_weight(*self),
    {
        match self {
            SpectralClass::O => 1,
            SpectralClass::B => 2,
            SpectralClass::A => 4,
            SpectralClass::F => 7,
            SpectralClass::G => 11,
            SpectralClass::K => 15,
            SpectralClass::M => 20,
        }
    }

    pub fn all_classes() -> (r: [SpectralClass; 7])
        ensures
            r@ == class_order(),
    {
        let r = [
            SpectralClass::O,
            SpectralClass::B,
            SpectralClass::A,
            SpectralClass::F,
            SpectralClass::G,
            SpectralClass::K,
            SpectralClass::M,
        ];
        assert(r@ =~= class_order());
        r
    }
}

/// The system type stored under `label`; an unknown label reads as Solo.
pub open spec fn type_of_label(label: Seq<char>) -> SystemType {
    if label == "binary"@ {
        SystemType::Binary
    } else if label == "trinary"@ {
        SystemType::Trinary
    } else {
        SystemType::Solo
    }
}

/// Whether two strings hold the same characters.
pub(crate) fn same_text(a: &str, b: &str) -> (r: bool)
    ensures
        r == (a@ == b@),
{
    String::from_str(a) == String::from_str(b)
}

/// Reads back a stored system type label.
pub fn system_type_from_label(label: &str) -> (r: SystemType)
    ensures
        r == type_of_label(label@),
        type_of_label(type_label(r)) == r,
{
    proof {
        lemma_type_label_round_trip(SystemType::Binary);
        lemma_type_label_round_trip(SystemType::Trinary);
        lemma_type_label_round_trip(SystemType::Solo);
    }
    if same_text(label, "binary") {
        SystemType::Binary
    } else if same_text(label, "trinary") {
        SystemType::Trinary
    } else {
        SystemType::Solo
    }
}

/// The class whose letter is `c`; any other letter reads as M.
pub open spec fn class_of_letter(c: char) -> SpectralClass {
    if c == 'O' {
        SpectralClass::O
    } else if c == 'B' {
        SpectralClass::B
    } else if c == 'A' {
        SpectralClass::A
    } else if c == 'F' {
        SpectralClass::F
    } else if c == 'G' {
        SpectralClass::G
    } else if c == 'K' {
        SpectralClass::K
    } else {
        SpectralClass::M
    }
}

/// Reads back a stored single-letter spectral class.
pub fn spectral_class_from_letter(c: char) -> (r: SpectralClass)
    ensures
        r == class_of_letter(c),
        class_of_letter(class_letter(r)) == r,
{
    match c {
        'O' => SpectralClass::O,
        'B' => SpectralClass::B,
        'A' => SpectralClass::A,
        'F' => SpectralClass::F,
        'G' => SpectralClass::G,
        'K' => SpectralClass::K,
        _ => SpectralClass::M,
    }
}

/// Storing a system type as its label and reading it back gives it again.
pub proof fn lemma_type_label_round_trip(t: SystemType)
    ensures
        type_of_label(type_label(t)) == t,
{
    reveal_strlit("solo");
    reveal_strlit("binary");
    reveal_strlit("trinary");
    assert("solo"@.len() == 4 && "binary"@.len() == 6 && "trinary"@.len() == 7);
}

/// Storing a class as its letter and reading it back gives it again.
pub proof fn lemma_class_letter_round_trip(c: SpectralClass)
    ensures
        class_of_letter(class_letter(c)) == c,
{
}

/// A star system as generated: its place in space is attached by the caller.
pub struct StarSystem {
    pub id: Option<Uuid>,
    pub project_id: Uuid,
    pub name: String,
    pub system_type: SystemType,
}

/// A star as generated: its physical quantities are attached by the caller.
pub struct Star {
    pub id: Option<Uuid>,
    pub system_id: Uuid,
    pub project_id: Uuid,
    pub name: String,
    pub spectral_class: SpectralClass,
    pub spectral_subclass: Option<i32>,
    pub luminosity_class: String,
}

/// Why a catalog could not be generated.
#[derive(Debug, Clone, Copy, PartialEq, Eq, Structural)]
pub enum GenerationError {
    /// The shape is neither `cube` nor `sphere`.
    InvalidShape,
    /// The dimensions or the radius that the shape needs are absent.
    MissingShapeParameters,
    /// A dimension or the radius is not positive.
    NonPositiveDimension,
}

/// The volume in which systems are placed, with the parameters of its shape.
#[derive(Debug, PartialEq)]
pub enum Volume<C, S> {
    Cuboid(C),
    Sphere(S),
}

/// An error message as handed to a client.
pub struct ErrorResponse {
    pub error: String,
}

/// Where the service listens and which database it uses.
pub struct AppConfig {
    pub host: String,
    pub port: u16,
    pub database_url: String,
    pub db_pool_max_size: u32,
}

} // verus!
