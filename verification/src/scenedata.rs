//! Scenes: named starting configurations of bodies.
use crate::compute::Compute;
use crate::particle::{positions_distinct, valid_bodies, Body, Scalar, Vector3};
use vstd::prelude::*;

verus! {

/// 0.0001
pub const TEN_THOUSANDTH: u32 = 0x38d1_b717;

/// 0.001
pub const THOUSANDTH: u32 = 0x3a83_126f;

/// 1.0
pub const ONE: u32 = 0x3f80_0000;

/// 1.2
pub const ONE_AND_A_FIFTH: u32 = 0x3f99_999a;

/// 5.0
pub const FIVE: u32 = 0x40a0_0000;

/// Density of the central body of the default scene: 1400.
pub const DEFAULT_SUN_DENSITY: u32 = 0x44af_0000;

/// Density of the second body of the default scene: 5500.
pub const DEFAULT_EARTH_DENSITY: u32 = 0x45ab_e000;

/// Density of the third body of the default scene: 3300.
pub const DEFAULT_MOON_DENSITY: u32 = 0x454e_4000;

/// Mass of the Sun: 1.989e30 kg.
pub const SUN_MASS: u32 = 0x71c8_d672;

/// Mean density of the Sun: 1410 kg/m^3.
pub const SUN_DENSITY: u32 = 0x44b0_4000;

/// Distance of the Earth from the Sun: 1.496e11 m.
pub const EARTH_DISTANCE: u32 = 0x520b_536b;

/// Orbital speed of the Earth: 29783 m/s.
pub const EARTH_SPEED: u32 = 0x46e8_ae00;

/// Mass of the Earth: 5.972e24 kg.
pub const EARTH_MASS: u32 = 0x689e_13d9;

/// Mean density of the Earth: 5515 kg/m^3.
pub const EARTH_DENSITY: u32 = 0x45ac_5800;

/// Distance of the Moon from the Sun when it stands behind the Earth: the
/// sum, rounded to single precision, of 1.496e11 m and 3.844e8 m.
pub const MOON_DISTANCE: u32 = 0x520b_af11;

/// Speed of the Moon around the Sun: 29783 m/s and 1022 m/s together.
pub const MOON_SPEED: u32 = 0x46f0_aa00;

/// Mass of the Moon: 7.342e22 kg.
pub const MOON_MASS: u32 = 0x6578_c1b3;

/// Mean density of the Moon: 3344 kg/m^3.
pub const MOON_DENSITY: u32 = 0x4551_0000;

/// The number of bodies in a random scene when the caller names none.
pub const CUSTOM_COUNT: usize = 3;

/// The kinds of scene.
#[derive(Clone, Copy, PartialEq, Eq, Structural, Debug)]
pub enum SceneType {
    CustomScene,
    DefaultScene,
    FigureEight,
    SolarSystem,
}

/// A collection of bodies with the parameters it was made from.
pub struct Scene {
    pub scene_type: SceneType,
    pub bodies_count: usize,
    pub bodies: Vec<Body>,
    pub bodies_min_mass: Scalar,
    pub bodies_max_mass: Scalar,
    pub compute: Compute,
}

/// What a scene holds, as mathematical values.
pub ghost struct SceneView {
    pub scene_type: SceneType,
    pub bodies_count: nat,
    pub bodies: Seq<Body>,
    pub bodies_min_mass: Scalar,
    pub bodies_max_mass: Scalar,
}

impl View for Scene {
    type V = SceneView;

    open spec fn view(&self) -> SceneView {
        SceneView {
            scene_type: self.scene_type,
            bodies_count: self.bodies_count as nat,
            bodies: self.bodies@,
            bodies_min_mass: self.bodies_min_mass,
            bodies_max_mass: self.bodies_max_mass,
        }
    }
}

/// A body on the x axis that moves along the y axis.
pub open spec fn orbiting(distance: u32, speed: u32, mass: u32, density: u32) -> Body {
    Body {
        position: Vector3 {
            x: Scalar { bits: distance },
            y: Scalar::spec_zero(),
            z: Scalar::spec_zero(),
        },
        velocity: Vector3 {
            x: Scalar::spec_zero(),
            y: Scalar { bits: speed },
            z: Scalar::spec_zero(),
        },
        acceleration: Vector3::spec_zero(),
        mass: Scalar { bits: mass },
        density: Scalar { bits: density },
    }
}

/// Sun, Earth and Moon in a line, in SI units.
pub open spec fn sun_earth_moon() -> Seq<Body> {
    seq![
        Body::at_rest(Scalar { bits: SUN_MASS }, Scalar { bits: SUN_DENSITY }),
        orbiting(EARTH_DISTANCE, EARTH_SPEED, EARTH_MASS, EARTH_DENSITY),
        orbiting(MOON_DISTANCE, MOON_SPEED, MOON_MASS, MOON_DENSITY),
    ]
}

/// One body at rest at the origin for each mass, all of one density.
pub open spec fn bodies_at_origin(masses: Seq<Scalar>) -> Seq<Body> {
    Seq::new(masses.len(), |i: int| Body::at_rest(masses[i], Scalar { bits: SUN_DENSITY }))
}

impl Scene {
    /// An empty scene.
    pub fn new() -> (r: Scene)
        ensures
            r@ == (SceneView {
                scene_type: SceneType::DefaultScene,
                bodies_count: 0,
                bodies: Seq::empty(),
                bodies_min_mass: Scalar::spec_zero(),
                bodies_max_mass: Scalar::spec_zero(),
            }),
    {
        Scene {
            scene_type: SceneType::DefaultScene,
            bodies_count: 0,
            bodies: Vec::new(),
            bodies_min_mass: Scalar::zero(),
            bodies_max_mass: Scalar::zero(),
            compute: Compute {  },
        }
    }

    /// Appends one body. The recorded count is left as it was.
    pub fn add_body(&mut self, body: Body)
        ensures
            final(self)@ == (SceneView { bodies: old(self)@.bodies.push(body), ..old(self)@ }),
    {
        self.bodies.push(body);
    }

    /// Appends bodies in the order given. The recorded count is left as it was.
    pub fn add_bodies(&mut self, bodies: Vec<Body>)
        ensures
            final(self)@ == (SceneView { bodies: old(self)@.bodies + bodies@, ..old(self)@ }),
    {
        let mut bodies = bodies;
        self.bodies.append(&mut bodies);
    }
}

/// The default scene: three bodies in arbitrary units.
pub struct DefaultScene;

/// Sun, Earth and Moon under the name of the figure-eight scene.
pub struct FigureEight;

/// Sun, Earth and Moon.
pub struct SolarSystem;

/// A scene of bodies whose masses the caller has drawn.
pub struct CustomScene;

impl DefaultScene {
    /// The bodies of the default scene.
    pub open spec fn spec_bodies() -> Seq<Body> {
        seq![
            Body::at_rest(Scalar { bits: ONE }, Scalar { bits: DEFAULT_SUN_DENSITY }),
            orbiting(ONE, ONE, THOUSANDTH, DEFAULT_EARTH_DENSITY),
            orbiting(ONE_AND_A_FIFTH, ONE_AND_A_FIFTH, TEN_THOUSANDTH, DEFAULT_MOON_DENSITY),
        ]
    }

    pub open spec fn spec_new() -> SceneView {
        SceneView {
            scene_type: SceneType::DefaultScene,
            bodies_count: 3,
            bodies: Self::spec_bodies(),
            bodies_min_mass: Scalar { bits: TEN_THOUSANDTH },
            bodies_max_mass: Scalar { bits: ONE },
        }
    }

    /// A heavy body at rest at the origin and two light ones beside it, at
    /// distances 1 and 1.2, moving at right angles to the line that joins them.
    pub fn new() -> (r: Scene)
        ensures
            r@ == Self::spec_new(),
            valid_bodies(r@.bodies),
    {
        let mut bodies = Vec::new();
        let sun = Body {
            position: Vector3::zero(),
            velocity: Vector3::zero(),
            acceleration: Vector3::zero(),
            mass: Scalar { bits: ONE },
            density: Scalar { bits: DEFAULT_SUN_DENSITY },
        };
        let earth = Body {
            position: Vector3::new(Scalar { bits: ONE }, Scalar::zero(), Scalar::zero()),
            velocity: Vector3::new(Scalar::zero(), Scalar { bits: ONE }, Scalar::zero()),
            acceleration: Vector3::zero(),
            mass: Scalar { bits: THOUSANDTH },
            density: Scalar { bits: DEFAULT_EARTH_DENSITY },
        };
        let moon = Body {
            position: Vector3::new(
                Scalar { bits: ONE_AND_A_FIFTH },
                Scalar::zero(),
                Scalar::zero(),
            ),
            velocity: Vector3::new(
                Scalar::zero(),
                Scalar { bits: ONE_AND_A_FIFTH },
                Scalar::zero(),
            ),
            acceleration: Vector3::zero(),
            mass: Scalar { bits: TEN_THOUSANDTH },
            density: Scalar { bits: DEFAULT_MOON_DENSITY },
        };
        bodies.push(sun);
        bodies.push(earth);
        bodies.push(moon);
        assert(bodies@ =~= Self::spec_bodies());
        proof {
            lemma_default_bodies_valid();
        }
        Scene {
            scene_type: SceneType::DefaultScene,
            bodies_count: bodies.len(),
            bodies,
            bodies_min_mass: Scalar { bits: TEN_THOUSANDTH },
            bodies_max_mass: Scalar { bits: ONE },
            compute: Compute {  },
        }
    }
}

impl CustomScene {
    pub open spec fn spec_new(masses: Seq<Scalar>, min_mass: Scalar, max_mass: Scalar) -> SceneView {
        SceneView {
            scene_type: SceneType::CustomScene,
            bodies_count: masses.len(),
            bodies: bodies_at_origin(masses),
            bodies_min_mass: min_mass,
            bodies_max_mass: max_mass,
        }
    }

    /// One body at rest at the origin for each of `masses`, in their order.
    /// The range that the masses were drawn from is recorded, not enforced.
    pub fn new(masses: Vec<Scalar>, min_mass: Scalar, max_mass: Scalar) -> (r: Scene)
        ensures
            r@ == Self::spec_new(masses@, min_mass, max_mass),
    {
        let count = masses.len();
        let mut bodies: Vec<Body> = Vec::new();
        let mut i: usize = 0;
        while i < count
            invariant
                count == masses@.len(),
                i <= count,
                bodies@ =~= bodies_at_origin(masses@.take(i as int)),
            decreases count - i,
        {
            let body = Body {
                position: Vector3::zero(),
                velocity: Vector3::zero(),
                acceleration: Vector3::zero(),
                mass: masses[i],
                density: Scalar { bits: SUN_DENSITY },
            };
            bodies.push(body);
            i = i + 1;
        }
        assert(masses@.take(count as int) =~= masses@);
        Scene {
            scene_type: SceneType::CustomScene,
            bodies_count: count,
            bodies,
            bodies_min_mass: min_mass,
            bodies_max_mass: max_mass,
            compute: Compute {  },
        }
    }
}

impl FigureEight {
    pub open spec fn spec_new() -> SceneView {
        SceneView {
            scene_type: SceneType::FigureEight,
            bodies_count: 3,
            bodies: sun_earth_moon(),
            bodies_min_mass: Scalar { bits: ONE },
            bodies_max_mass: Scalar { bits: FIVE },
        }
    }

    /// Sun, Earth and Moon in a line along the x axis, the Sun at rest at the
    /// origin, Earth and Moon moving along the y axis.
    pub fn new() -> (r: Scene)
        ensures
            r@ == Self::spec_new(),
            valid_bodies(r@.bodies),
    {
        let mut bodies = Vec::new();
        let sun = Body {
            position: Vector3::zero(),
            velocity: Vector3::zero(),
            acceleration: Vector3::zero(),
            mass: Scalar { bits: SUN_MASS },
            density: Scalar { bits: SUN_DENSITY },
        };
        let earth = Body {
            position: Vector3::new(Scalar { bits: EARTH_DISTANCE }, Scalar::zero(), Scalar::zero()),
            velocity: Vector3::new(Scalar::zero(), Scalar { bits: EARTH_SPEED }, Scalar::zero()),
            acceleration: Vector3::zero(),
            mass: Scalar { bits: EARTH_MASS },
            density: Scalar { bits: EARTH_DENSITY },
        };
        let moon = Body {
            position: Vector3::new(Scalar { bits: MOON_DISTANCE }, Scalar::zero(), Scalar::zero()),
            velocity: Vector3::new(Scalar::zero(), Scalar { bits: MOON_SPEED }, Scalar::zero()),
            acceleration: Vector3::zero(),
            mass: Scalar { bits: MOON_MASS },
            density: Scalar { bits: MOON_DENSITY },
        };
        bodies.push(sun);
        bodies.push(earth);
        bodies.push(moon);
        assert(bodies@ =~= sun_earth_moon());
        proof {
            lemma_sun_earth_moon_valid();
        }
        Scene {
            scene_type: SceneType::FigureEight,
            bodies_count: 3,
            bodies,
            bodies_min_mass: Scalar { bits: ONE },
            bodies_max_mass: Scalar { bits: FIVE },
            compute: Compute {  },
        }
    }
}

impl SolarSystem {
    pub open spec fn spec_new() -> SceneView {
        SceneView {
            scene_type: SceneType::SolarSystem,
            bodies_count: 3,
            bodies: sun_earth_moon(),
            bodies_min_mass: Scalar { bits: ONE },
            bodies_max_mass: Scalar { bits: FIVE },
        }
    }

    /// Sun, Earth and Moon in a line along the x axis, the Sun at rest at the
    /// origin, Earth and Moon moving along the y axis.
    pub fn new() -> (r: Scene)
        ensures
            r@ == Self::spec_new(),
            valid_bodies(r@.bodies),
    {
        let mut bodies = Vec::new();
        let sun = Body {
            position: Vector3::zero(),
            velocity: Vector3::zero(),
            acceleration: Vector3::zero(),
            mass: Scalar { bits: SUN_MASS },
            density: Scalar { bits: SUN_DENSITY },
        };
        let earth = Body {
            position: Vector3::new(Scalar { bits: EARTH_DISTANCE }, Scalar::zero(), Scalar::zero()),
            velocity: Vector3::new(Scalar::zero(), Scalar { bits: EARTH_SPEED }, Scalar::zero()),
            acceleration: Vector3::zero(),
            mass: Scalar { bits: EARTH_MASS },
            density: Scalar { bits: EARTH_DENSITY },
        };
        let moon = Body {
            position: Vector3::new(Scalar { bits: MOON_DISTANCE }, Scalar::zero(), Scalar::zero()),
            velocity: Vector3::new(Scalar::zero(), Scalar { bits: MOON_SPEED }, Scalar::zero()),
            acceleration: Vector3::zero(),
            mass: Scalar { bits: MOON_MASS },
            density: Scalar { bits: MOON_DENSITY },
        };
        bodies.push(sun);
        bodies.push(earth);
        bodies.push(moon);
        assert(bodies@ =~= sun_earth_moon());
        proof {
            lemma_sun_earth_moon_valid();
        }
        Scene {
            scene_type: SceneType::SolarSystem,
            bodies_count: 3,
            bodies,
            bodies_min_mass: Scalar { bits: ONE },
            bodies_max_mass: Scalar { bits: FIVE },
            compute: Compute {  },
        }
    }
}

/// How a requested scene comes about.
pub enum SceneSetup {
    /// The scene is fixed and stands ready.
    Fixed(Scene),
    /// The scene needs `count` masses drawn between `min_mass` and
    /// `max_mass`; `CustomScene::new` makes it from them.
    Random { count: usize, min_mass: Scalar, max_mass: Scalar },
}

/// A setup as mathematical values.
pub ghost enum SceneSetupView {
    Fixed(SceneView),
    Random { count: nat, min_mass: Scalar, max_mass: Scalar },
}

impl View for SceneSetup {
    type V = SceneSetupView;

    open spec fn view(&self) -> SceneSetupView {
        match *self {
            SceneSetup::Fixed(scene) => SceneSetupView::Fixed(scene@),
            SceneSetup::Random { count, min_mass, max_mass } => SceneSetupView::Random {
                count: count as nat,
                min_mass,
                max_mass,
            },
        }
    }
}

/// The setup of each kind of scene. A random scene has 3 bodies with masses
/// between 1 and 5 unless the caller says otherwise.
pub open spec fn spec_create_scene(
    st: SceneType,
    bodies_count: Option<usize>,
    bodies_min_mass: Option<Scalar>,
    bodies_max_mass: Option<Scalar>,
) -> SceneSetupView {
    match st {
        SceneType::CustomScene => SceneSetupView::Random {
            count: match bodies_count {
                Some(count) => count as nat,
                None => CUSTOM_COUNT as nat,
            },
            min_mass: match bodies_min_mass {
                Some(mass) => mass,
                None => Scalar { bits: ONE },
            },
            max_mass: match bodies_max_mass {
                Some(mass) => mass,
                None => Scalar { bits: FIVE },
            },
        },
        SceneType::DefaultScene => SceneSetupView::Fixed(DefaultScene::spec_new()),
        SceneType::FigureEight => SceneSetupView::Fixed(FigureEight::spec_new()),
        SceneType::SolarSystem => SceneSetupView::Fixed(SolarSystem::spec_new()),
    }
}

/// Sets up a scene of the kind asked for. The three optional parameters
/// matter to a random scene only.
pub fn create_scene(
    st: SceneType,
    bodies_count: Option<usize>,
    bodies_min_mass: Option<Scalar>,
    bodies_max_mass: Option<Scalar>,
) -> (r: SceneSetup)
    ensures
        r@ == spec_create_scene(st, bodies_count, bodies_min_mass, bodies_max_mass),
{
    match st {
        SceneType::CustomScene => {
            let count = match bodies_count {
                Some(count) => count,
                None => CUSTOM_COUNT,
            };
            let min_mass = match bodies_min_mass {
                Some(mass) => mass,
                None => Scalar { bits: ONE },
            };
            let max_mass = match bodies_max_mass {
                Some(mass) => mass,
                None => Scalar { bits: FIVE },
            };
            SceneSetup::Random { count, min_mass, max_mass }
        },
        SceneType::DefaultScene => SceneSetup::Fixed(DefaultScene::new()),
        SceneType::FigureEight => SceneSetup::Fixed(FigureEight::new()),
        SceneType::SolarSystem => SceneSetup::Fixed(SolarSystem::new()),
    }
}

/// The bodies of the default scene have positive masses and stand apart.
pub proof fn lemma_default_bodies_valid()
    ensures
        valid_bodies(DefaultScene::spec_bodies()),
{
}

/// Sun, Earth and Moon have positive masses and stand apart.
pub proof fn lemma_sun_earth_moon_valid()
    ensures
        valid_bodies(sun_earth_moon()),
{
}

/// Bodies made at the origin coincide: a scene of two or more of them is
/// not one that the force law is defined on.
pub proof fn lemma_bodies_at_origin_coincide(masses: Seq<Scalar>)
    requires
        masses.len() >= 2,
    ensures
        !positions_distinct(bodies_at_origin(masses)),
{
    let bodies = bodies_at_origin(masses);
    assert(bodies[0].position.same_point(bodies[1].position));
}

} // verus!
