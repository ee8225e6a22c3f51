use vstd::prelude::*;

use crate::model::{
    class_order, class_weight, same_text, star_count, GenerationError, SpectralClass, Star, StarSystem,
    SystemType, Volume,
};
use crate::naming::{generate_star_names, generate_system_name, star_names_of, system_name_of};
use crate::random::{new_id, uniform_below, weight_sum, weighted_index};
use rand::rngs::StdRng;
use uuid::Uuid;

verus! {

/// The system type that a roll in `0..100` selects: Solo below 74,
/// Binary below 99, Trinary for 99.
pub open spec fn type_for_roll(roll: u32) -> SystemType {
    if roll < 74 {
        SystemType::Solo
    } else if roll < 99 {
        SystemType::Binary
    } else {
        SystemType::Trinary
    }
}

/// The system type for a roll already drawn from `0..100`.
pub fn system_type_from_roll(roll: u32) -> (r: SystemType)
    requires
        roll < 100,
    ensures
        r == type_for_roll(roll),
{
    if roll < 74 {
        SystemType::Solo
    } else if roll < 99 {
        SystemType::Binary
    } else {
        SystemType::Trinary
    }
}

/// Solo 74%, Binary 25%, Trinary 1%, from a uniform roll in `0..100`.
pub fn determine_system_type(rng: &mut StdRng) -> (r: SystemType)
    ensures
        exists|roll: u32| roll < 100 && r == #[trigger] type_for_roll(roll),
{
    let roll = uniform_below(rng, 100);
    let r = system_type_from_roll(roll);
    assert(roll < 100 && r == type_for_roll(roll));
    r
}

/// The weights of the classes, hottest first.
pub open spec fn class_weights() -> Seq<u32> {
    class_order().map_values(|c: SpectralClass| class_weight(c))
}

/// The weights of all classes, in the order of `SpectralClass::all_classes`.
pub fn spectral_weights() -> (r: Vec<u32>)
    ensures
        r@ == class_weights(),
{
    let classes = SpectralClass::all_classes();
    let mut r: Vec<u32> = Vec::new();
    let mut i: usize = 0;
    while i < 7
        invariant
            i <= 7,
            classes@ == class_order(),
            r@ == class_weights().take(i as int),
        decreases 7 - i,
    {
        r.push(classes[i].weight());
        i = i + 1;
        assert(r@ =~= class_weights().take(i as int));
    }
    assert(r@ =~= class_weights());
    r
}

/// The class at position `index` of the weight table.
pub fn spectral_class_at(index: usize) -> (r: SpectralClass)
    requires
        index < 7,
    ensures
        r == class_order()[index as int],
{
    let classes = SpectralClass::all_classes();
    classes[index]
}

/// A class drawn with probability proportional to its weight, so that M
/// comes twenty times as often as O.
pub fn generate_spectral_class(rng: &mut StdRng) -> (r: SpectralClass) {
    let weights = spectral_weights();
    proof {
        reveal_with_fuel(weight_sum, 8);
        assert(weights@.len() == 7);
        assert(weight_sum(weights@) == 60) by {
            assert(weights@ =~= seq![1u32, 2, 4, 7, 11, 15, 20]);
        }
    }
    let index = weighted_index(rng, &weights);
    let r = spectral_class_at(index);
    assert(class_order()[index as int] == r);
    r
}

/// A class by weight and a subclass digit drawn uniformly from `0..=9`.
pub fn generate_spectral_type(rng: &mut StdRng) -> (r: (SpectralClass, i32))
    ensures
        0 <= r.1 <= 9,
{
    let class = generate_spectral_class(rng);
    let subclass = uniform_below(rng, 10);
    (class, subclass as i32)
}

/// The outcome of validating a shape name against the parameters given.
pub open spec fn volume_for<C, S>(shape: Seq<char>, cube_params: Option<C>, sphere_params: Option<S>) -> Result<Volume<C, S>, GenerationError> {
    if shape == "cube"@ {
        match cube_params {
            Some(c) => Ok(Volume::Cuboid(c)),
            None => Err(GenerationError::MissingShapeParameters),
        }
    } else if shape == "sphere"@ {
        match sphere_params {
            Some(s) => Ok(Volume::Sphere(s)),
            None => Err(GenerationError::MissingShapeParameters),
        }
    } else {
        Err(GenerationError::InvalidShape)
    }
}

/// Picks the volume that `shape` names, with the parameters it needs.
pub fn select_volume<C, S>(shape: &str, cube_params: Option<C>, sphere_params: Option<S>) -> (r: Result<Volume<C, S>, GenerationError>)
    ensures
        r == volume_for(shape@, cube_params, sphere_params),
{
    if same_text(shape, "cube") {
        match cube_params {
            Some(c) => Ok(Volume::Cuboid(c)),
            None => Err(GenerationError::MissingShapeParameters),
        }
    } else if same_text(shape, "sphere") {
        match sphere_params {
            Some(s) => Ok(Volume::Sphere(s)),
            None => Err(GenerationError::MissingShapeParameters),
        }
    } else {
        Err(GenerationError::InvalidShape)
    }
}

/// The number of systems of type `t` in `systems`.
pub open spec fn type_count(systems: Seq<StarSystem>, t: SystemType) -> nat
    decreases systems.len(),
{
    if systems.len() == 0 {
        0
    } else {
        type_count(systems.drop_last(), t) + if systems.last().system_type == t {
            1nat
        } else {
            0nat
        }
    }
}

/// Every system is counted under exactly one type.
pub proof fn lemma_type_counts_sum(systems: Seq<StarSystem>)
    ensures
        type_count(systems, SystemType::Solo) + type_count(systems, SystemType::Binary)
            + type_count(systems, SystemType::Trinary) == systems.len(),
    decreases systems.len(),
{
    if systems.len() > 0 {
        lemma_type_counts_sum(systems.drop_last());
    }
}

/// The numbers of solo, binary and trinary systems.
pub fn count_system_types(systems: &[StarSystem]) -> (r: (i32, i32, i32))
    requires
        systems.len() <= i32::MAX,
    ensures
        r.0 == type_count(systems@, SystemType::Solo),
        r.1 == type_count(systems@, SystemType::Binary),
        r.2 == type_count(systems@, SystemType::Trinary),
        r.0 + r.1 + r.2 == systems.len(),
{
    let mut solo: i32 = 0;
    let mut binary: i32 = 0;
    let mut trinary: i32 = 0;
    let mut i: usize = 0;
    while i < systems.len()
        invariant
            i <= systems.len() <= i32::MAX,
            solo == type_count(systems@.take(i as int), SystemType::Solo),
            binary == type_count(systems@.take(i as int), SystemType::Binary),
            trinary == type_count(systems@.take(i as int), SystemType::Trinary),
            solo + binary + trinary == i,
        decreases systems.len() - i,
    {
        proof {
            lemma_type_counts_sum(systems@.take(i as int));
            assert(systems@.take(i as int + 1).drop_last() =~= systems@.take(i as int));
        }
        match systems[i].system_type {
            SystemType::Solo => solo = solo + 1,
            SystemType::Binary => binary = binary + 1,
            SystemType::Trinary => trinary = trinary + 1,
        }
        i = i + 1;
    }
    assert(systems@.take(i as int) =~= systems@);
    (solo, binary, trinary)
}

/// The number of stars that belong to the first `i` systems.
pub open spec fn stars_before(systems: Seq<StarSystem>, i: int) -> nat
    decreases i,
{
    if i <= 0 {
        0
    } else {
        stars_before(systems, i - 1) + star_count(systems[i - 1].system_type)
    }
}

/// `star` is star number `k` of `system`, in project `project_id`.
pub open spec fn star_of(star: Star, system: StarSystem, k: int, project_id: Uuid) -> bool {
    &&& system.id is Some
    &&& star.system_id == system.id.unwrap()
    &&& star.project_id == project_id
    &&& star.name@ == star_names_of(system.name@, system.system_type)[k]
    &&& star.luminosity_class@ == "V"@
    &&& star.spectral_subclass matches Some(sub) && 0 <= sub <= 9
}

/// Star `k` of system `j` stands where the grouping by system puts it.
pub open spec fn star_placed(
    systems: Seq<StarSystem>,
    stars: Seq<Star>,
    j: int,
    k: int,
    project_id: Uuid,
) -> bool {
    star_of(stars[stars_before(systems, j) + k], systems[j], k, project_id)
}

/// System `i` of a catalog of project `project_id`.
pub open spec fn system_of(system: StarSystem, i: int, project_id: Uuid) -> bool {
    &&& system.id is Some
    &&& system.project_id == project_id
    &&& system.name@ == system_name_of(i as nat)
}

/// `systems` and `stars` form a complete catalog of `count` systems for
/// `project_id`: the systems in naming order, and after them, grouped by
/// system in the same order, exactly the stars each system's type calls for.
pub open spec fn is_catalog(project_id: Uuid, count: nat, systems: Seq<StarSystem>, stars: Seq<Star>) -> bool {
    &&& systems.len() == count
    &&& stars.len() == stars_before(systems, count as int)
    &&& forall|i: int| 0 <= i < count ==> #[trigger] system_of(systems[i], i, project_id)
    &&& forall|j: int, k: int|
        0 <= j < count && 0 <= k < star_count(systems[j].system_type) ==> #[trigger] star_placed(
            systems,
            stars,
            j,
            k,
            project_id,
        )
}

proof fn lemma_stars_before_push(systems: Seq<StarSystem>, x: StarSystem, i: int)
    requires
        0 <= i <= systems.len(),
    ensures
        stars_before(systems.push(x), i) == stars_before(systems, i),
    decreases i,
{
    if i > 0 {
        lemma_stars_before_push(systems, x, i - 1);
    }
}

proof fn lemma_stars_before_mono(systems: Seq<StarSystem>, i: int, j: int)
    requires
        0 <= i <= j <= systems.len(),
    ensures
        stars_before(systems, i) <= stars_before(systems, j),
        stars_before(systems, j) <= stars_before(systems, i) + 3 * (j - i),
        stars_before(systems, j) >= stars_before(systems, i) + (j - i),
    decreases j,
{
    if i < j {
        lemma_stars_before_mono(systems, i, j - 1);
    }
}

/// A catalog of `count` systems holds between `count` and `3 * count` stars.
pub proof fn lemma_catalog_star_bounds(project_id: Uuid, count: nat, systems: Seq<StarSystem>, stars: Seq<Star>)
    requires
        is_catalog(project_id, count, systems, stars),
    ensures
        count <= stars.len() <= 3 * count,
{
    lemma_stars_before_mono(systems, 0, count as int);
}

/// Generates `num_systems` systems with their stars in the volume that
/// `distribution_type` names, or fails, with no output, where the shape is
/// unknown or its parameters are absent.
pub fn generate_star_systems<C, S>(
    project_id: Uuid,
    num_systems: usize,
    distribution_type: &str,
    cube_params: Option<C>,
    sphere_params: Option<S>,
    rng: &mut StdRng,
) -> (r: Result<(Vec<StarSystem>, Vec<Star>), GenerationError>)
    requires
        num_systems < usize::MAX,
    ensures
        r is Err <==> volume_for(distribution_type@, cube_params, sphere_params) is Err,
        r matches Err(e) ==> volume_for(distribution_type@, cube_params, sphere_params) == Err::<
            Volume<C, S>,
            GenerationError,
        >(e),
        r matches Ok(catalog) ==> is_catalog(project_id, num_systems as nat, catalog.0@, catalog.1@),
{
    match select_volume(distribution_type, cube_params, sphere_params) {
        Err(e) => {
            return Err(e);
        },
        Ok(_) => {},
    }
    proof {
        reveal_strlit("V");
    }
    let mut systems: Vec<StarSystem> = Vec::new();
    let mut stars: Vec<Star> = Vec::new();
    let mut i: usize = 0;
    while i < num_systems
        invariant
            i <= num_systems < usize::MAX,
            systems.len() == i,
            stars.len() == stars_before(systems@, i as int),
            forall|x: int| 0 <= x < i ==> #[trigger] system_of(systems@[x], x, project_id),
            forall|j: int, k: int|
                0 <= j < i && 0 <= k < star_count(systems@[j].system_type) ==> #[trigger] star_placed(
                    systems@,
                    stars@,
                    j,
                    k,
                    project_id,
                ),
        decreases num_systems - i,
    {
        let system_type = determine_system_type(rng);
        let system_name = generate_system_name(i);
        let system_id = new_id();
        let system = StarSystem {
            id: Some(system_id),
            project_id,
            name: system_name,
            system_type,
        };
        let star_names = generate_star_names(system.name.as_str(), &system_type);
        let ghost base = stars@.len();
        let ghost before = stars@;
        let mut k: usize = 0;
        while k < star_names.len()
            invariant
                star_names.len() == star_count(system_type),
                forall|m: int|
                    0 <= m < star_names.len() ==> (#[trigger] star_names[m])@ == star_names_of(
                        system.name@,
                        system_type,
                    )[m],
                system.id == Some(system_id),
                system.system_type == system_type,
                k <= star_names.len(),
                stars.len() == base + k,
                stars@.take(base as int) == before,
                forall|m: int|
                    0 <= m < k ==> #[trigger] star_of(stars@[base + m], system, m, project_id),
            decreases star_names.len() - k,
        {
            let (spectral_class, spectral_subclass) = generate_spectral_type(rng);
            let star = Star {
                id: Some(new_id()),
                system_id,
                project_id,
                name: star_names[k].clone(),
                spectral_class,
                spectral_subclass: Some(spectral_subclass),
                luminosity_class: String::from_str("V"),
            };
            let ghost prev = stars@;
            stars.push(star);
            proof {
                assert(stars@.take(base as int) =~= prev.take(base as int));
                assert forall|m: int| 0 <= m < k + 1 implies #[trigger] star_of(
                    stars@[base + m],
                    system,
                    m,
                    project_id,
                ) by {
                    if m < k {
                        assert(stars@[base + m] == prev[base + m]);
                    }
                }
            }
            k = k + 1;
        }
        let ghost old_systems = systems@;
        systems.push(system);
        proof {
            assert(systems@[i as int] == system);
            lemma_stars_before_push(old_systems, system, i as int);
            assert(stars_before(systems@, i as int + 1) == stars_before(old_systems, i as int)
                + star_count(system_type));
            assert forall|x: int| 0 <= x < i + 1 implies #[trigger] system_of(
                systems@[x],
                x,
                project_id,
            ) by {
                if x < i {
                    assert(systems@[x] == old_systems[x]);
                }
            }
            assert forall|j: int, k2: int|
                0 <= j < i + 1 && 0 <= k2 < star_count(systems@[j].system_type) implies #[trigger] star_placed(
                systems@,
                stars@,
                j,
                k2,
                project_id,
            ) by {
                if j < i {
                    assert(systems@[j] == old_systems[j]);
                    lemma_stars_before_push(old_systems, system, j);
                    lemma_stars_before_mono(old_systems, j + 1, i as int);
                    assert(star_placed(old_systems, before, j, k2, project_id));
                    assert(stars@[stars_before(old_systems, j) + k2] == before[stars_before(old_systems, j) + k2]) by {
                        assert(stars@.take(base as int)[stars_before(old_systems, j) + k2] == before[stars_before(old_systems, j) + k2]);
                    }
                } else {
                    assert(star_of(stars@[base + k2], system, k2, project_id));
                }
            }
        }
        i = i + 1;
    }
    Ok((systems, stars))
}

} // verus!
