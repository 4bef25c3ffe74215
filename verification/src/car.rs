//! The car as the learner sees it: its size, where its range sensors sit,
//! what they read, and the controls it is driven by.

use vstd::prelude::*;
use crate::fixed::{trunc_div, ONE};
use crate::nn::params::SENSOR_COUNT;
use crate::nn::util::Levers;

verus! {

/// A point or a direction in space.
#[derive(Clone, Copy, Debug)]
pub struct Point3 {
    pub x: i64,
    pub y: i64,
    pub z: i64,
}

/// A rotation as a unit quaternion.
#[derive(Clone, Copy, Debug)]
pub struct Rotation {
    pub x: i64,
    pub y: i64,
    pub z: i64,
    pub w: i64,
}

/// Where a body is placed: translation, rotation and scale.
#[derive(Clone, Copy, Debug)]
pub struct Pose {
    pub translation: Point3,
    pub rotation: Rotation,
    pub scale: Point3,
}

/// Half width, half height and half length of the body.
#[derive(Clone, Copy, Debug)]
pub struct CarSize {
    pub hw: i64,
    pub hh: i64,
    pub hl: i64,
}

/// Where a range sensor sits on the body and where it looks: a position in
/// the car's frame, and a turn about the vertical axis counted in steps of
/// a thirty-second of a half turn.
#[derive(Clone, Copy, Debug)]
pub struct SensorMount {
    pub position: Point3,
    pub yaw_steps: i64,
}

/// Steps of yaw in a half turn.
pub const YAW_STEPS_PER_HALF_TURN: i64 = 32;

/// Height of every sensor above the car's origin.
pub const SENSOR_HEIGHT: i64 = 100_000;

#[derive(Debug)]
pub struct Car {
    pub size: CarSize,
    pub sensor_config: [SensorMount; SENSOR_COUNT],
    pub sensor_inputs: Vec<i64>,
    pub gas: i64,
    pub brake: i64,
    pub steering: i64,
    pub wheels: Vec<u64>,
    pub wheel_max_torque: i64,
    pub init_transform: Pose,
    pub reset_at: Option<u64>,
    pub index: usize,
    pub init_meters: i64,
    pub meters: i64,
    pub lap: usize,
    pub line_dir: Point3,
    pub line_pos: Point3,
    pub place: usize,
    pub prev_steering: i64,
    pub prev_torque: i64,
    pub prev_dir: i64,
}

/// The size of the car that `Car::default` builds.
pub open spec fn default_size() -> CarSize {
    CarSize { hw: 1_000_000, hh: 350_000, hl: 2_200_000 }
}

/// The pose of a body that has been neither moved, turned nor scaled.
pub open spec fn identity_pose() -> Pose {
    Pose {
        translation: Point3 { x: 0, y: 0, z: 0 },
        rotation: Rotation { x: 0, y: 0, z: 0, w: ONE },
        scale: Point3 { x: ONE, y: ONE, z: ONE },
    }
}

/// The yaw of the `k`-th pair of the forward fan: four narrow steps, then
/// double steps out to a quarter turn.
pub open spec fn fan_yaw(k: int) -> int {
    if k < 4 {
        k + 1
    } else {
        2 * k - 2
    }
}

/// The side of the body that mount `i` sits on: the first three run from
/// right to left across the nose, the others alternate right and left.
pub open spec fn mount_side(i: int) -> int {
    if i == 1 {
        0
    } else if i == 0 || (i > 2 && i % 2 == 1) {
        1
    } else {
        -1
    }
}

/// Whether mount `i` sits at the nose (1), amidships (0) or at the tail (-1).
pub open spec fn mount_end(i: int) -> int {
    if i <= 22 {
        1
    } else if i <= 24 {
        0
    } else {
        -1
    }
}

/// Where mount `i` looks. Three look straight ahead, ten pairs fan out to
/// either side, one pair looks sideways, and six look back.
pub open spec fn mount_yaw(i: int) -> int {
    if i <= 2 {
        0
    } else if i <= 22 {
        mount_side(i) * fan_yaw((i - 3) / 2)
    } else if i <= 24 {
        mount_side(i) * 16
    } else if i <= 26 {
        32
    } else {
        32 - mount_side(i) * (8 * ((i - 27) / 2) + 8)
    }
}

/// Mount `i` of the standard layout on a body of the given size.
pub open spec fn default_mount(i: int, size: CarSize) -> SensorMount {
    SensorMount {
        position: Point3 {
            x: (mount_side(i) * size.hw) as i64,
            y: SENSOR_HEIGHT,
            z: (mount_end(i) * size.hl) as i64,
        },
        yaw_steps: mount_yaw(i) as i64,
    }
}

impl Car {
    /// The readings are one per sensor and the controls within their ranges.
    pub open spec fn wf(&self) -> bool {
        &&& self.sensor_inputs@.len() == SENSOR_COUNT
        &&& 0 <= self.gas <= ONE
        &&& 0 <= self.brake <= ONE
        &&& -ONE <= self.steering <= ONE
    }

    /// Whether the record is well formed, for callers that cannot know.
    pub fn is_wf(&self) -> (ok: bool)
        ensures
            ok == self.wf(),
    {
        self.sensor_inputs.len() == SENSOR_COUNT && 0 <= self.gas && self.gas <= ONE && 0
            <= self.brake && self.brake <= ONE && -ONE <= self.steering && self.steering <= ONE
    }
}

/// A wheel's radius and its width.
#[derive(Clone, Copy, Debug)]
pub struct Wheel {
    pub radius: i64,
    pub width: i64,
}

/// A wheel and where it is hung on the body.
#[derive(Clone, Copy, Debug)]
pub struct WheelMount {
    pub wheel: Wheel,
    /// Where the axle meets the body, in the car's frame.
    pub anchor: Point3,
    pub front: bool,
    pub left: bool,
}

pub const WHEEL_FRONT_RADIUS: i64 = 400_000;

pub const WHEEL_BACK_RADIUS: i64 = 401_000;

pub const WHEEL_FRONT_HALF_WIDTH: i64 = 200_000;

pub const WHEEL_BACK_HALF_WIDTH: i64 = 250_000;

/// How far the body rides above the point where the front wheels would
/// touch its floor.
pub const RIDE_HEIGHT: i64 = 80_000;

/// The largest half extent of a body that wheels can be hung on.
pub const MAX_HALF_EXTENT: i64 = 0x4000_0000_0000_0000;

impl CarSize {
    /// No half extent is beyond `MAX_HALF_EXTENT` either way.
    pub open spec fn hangable(&self) -> bool {
        &&& -MAX_HALF_EXTENT <= self.hw <= MAX_HALF_EXTENT
        &&& -MAX_HALF_EXTENT <= self.hh <= MAX_HALF_EXTENT
        &&& -MAX_HALF_EXTENT <= self.hl <= MAX_HALF_EXTENT
    }

    /// Whether wheels can be hung on a body of this size.
    pub fn is_hangable(&self) -> (ok: bool)
        ensures
            ok == self.hangable(),
    {
        -MAX_HALF_EXTENT <= self.hw && self.hw <= MAX_HALF_EXTENT && -MAX_HALF_EXTENT <= self.hh
            && self.hh <= MAX_HALF_EXTENT && -MAX_HALF_EXTENT <= self.hl && self.hl
            <= MAX_HALF_EXTENT
    }
}

/// Wheel `i` of four on a body of the given size. The first two are the
/// front wheels, the even ones sit on the right. All four axles are hung at
/// one height, set in from the sides by the front wheel's half width and a
/// tenth, and from the ends by its radius and a half.
pub open spec fn wheel_mount_spec(size: CarSize, i: int) -> WheelMount {
    let front = i < 2;
    let left = i % 2 == 1;
    let x = size.hw - WHEEL_FRONT_HALF_WIDTH - 100_000;
    let y = -size.hh + WHEEL_FRONT_RADIUS - RIDE_HEIGHT;
    let z = size.hl - WHEEL_FRONT_RADIUS - 500_000;
    WheelMount {
        wheel: Wheel {
            radius: if front {
                WHEEL_FRONT_RADIUS
            } else {
                WHEEL_BACK_RADIUS
            },
            width: if front {
                (2 * WHEEL_FRONT_HALF_WIDTH) as i64
            } else {
                (2 * WHEEL_BACK_HALF_WIDTH) as i64
            },
        },
        anchor: Point3 {
            x: (if left {
                -x
            } else {
                x
            }) as i64,
            y: y as i64,
            z: (if front {
                z
            } else {
                -z
            }) as i64,
        },
        front,
        left,
    }
}

/// Wheel `i` of four and where it is hung on a body of the given size.
pub fn wheel_mount(size: &CarSize, i: usize) -> (mount: WheelMount)
    requires
        size.hangable(),
        i < 4,
    ensures
        mount == wheel_mount_spec(*size, i as int),
{
    let front: bool = i < 2;
    let left: bool = i % 2 == 1;
    let x: i64 = size.hw - WHEEL_FRONT_HALF_WIDTH - 100_000;
    let y: i64 = -size.hh + WHEEL_FRONT_RADIUS - RIDE_HEIGHT;
    let z: i64 = size.hl - WHEEL_FRONT_RADIUS - 500_000;
    let half_width: i64 = if front {
        WHEEL_FRONT_HALF_WIDTH
    } else {
        WHEEL_BACK_HALF_WIDTH
    };
    WheelMount {
        wheel: Wheel {
            radius: if front {
                WHEEL_FRONT_RADIUS
            } else {
                WHEEL_BACK_RADIUS
            },
            width: half_width * 2,
        },
        anchor: Point3 {
            x: if left {
                -x
            } else {
                x
            },
            y,
            z: if front {
                z
            } else {
                -z
            },
        },
        front,
        left,
    }
}

/// A sensor mount from its position on the body and its yaw.
fn mount(x: i64, z: i64, yaw_steps: i64) -> (m: SensorMount)
    ensures
        m == (SensorMount { position: Point3 { x, y: SENSOR_HEIGHT, z }, yaw_steps }),
{
    SensorMount { position: Point3 { x, y: SENSOR_HEIGHT, z }, yaw_steps }
}

impl Default for Car {
    /// A car of the standard size with the standard sensor layout, at rest,
    /// with no wheels attached and no progress made.
    fn default() -> (car: Self)
        ensures
            car.wf(),
            car.size == default_size(),
            forall|i: int|
                0 <= i < SENSOR_COUNT ==> car.sensor_config@[i] == default_mount(i, default_size()),
            forall|i: int| 0 <= i < SENSOR_COUNT ==> car.sensor_inputs@[i] == 0,
            car.gas == 0 && car.brake == 0 && car.steering == 0,
            car.prev_steering == 0 && car.prev_torque == 0 && car.prev_dir == 0,
            car.wheels@.len() == 0,
            car.wheel_max_torque == 1000 * ONE,
            car.init_transform == identity_pose(),
            car.reset_at is None,
            car.index == 0 && car.place == 0 && car.lap == 0,
            car.init_meters == 0 && car.meters == 0,
            car.line_dir == (Point3 { x: 0, y: 0, z: 0 }),
            car.line_pos == (Point3 { x: 0, y: 0, z: 0 }),
    {
        let hw: i64 = 1_000_000;
        let hh: i64 = 350_000;
        let hl: i64 = 2_200_000;
        let sensor_config: [SensorMount; SENSOR_COUNT] = [
            // front
            mount(hw, hl, 0),
            mount(0, hl, 0),
            mount(-hw, hl, 0),
            mount(hw, hl, 1),
            mount(-hw, hl, -1),
            mount(hw, hl, 2),
            mount(-hw, hl, -2),
            mount(hw, hl, 3),
            mount(-hw, hl, -3),
            mount(hw, hl, 4),
            mount(-hw, hl, -4),
            mount(hw, hl, 6),
            mount(-hw, hl, -6),
            mount(hw, hl, 8),
            mount(-hw, hl, -8),
            // front, beyond an eighth of a turn
            mount(hw, hl, 10),
            mount(-hw, hl, -10),
            mount(hw, hl, 12),
            mount(-hw, hl, -12),
            mount(hw, hl, 14),
            mount(-hw, hl, -14),
            mount(hw, hl, 16),
            mount(-hw, hl, -16),
            // side
            mount(hw, 0, 16),
            mount(-hw, 0, -16),
            // back
            mount(hw, -hl, 32),
            mount(-hw, -hl, 32),
            mount(hw, -hl, 24),
            mount(-hw, -hl, 40),
            mount(hw, -hl, 16),
            mount(-hw, -hl, 48),
        ];
        let mut sensor_inputs: Vec<i64> = Vec::new();
        let mut i: usize = 0;
        while i < SENSOR_COUNT
            invariant
                i <= SENSOR_COUNT,
                sensor_inputs@.len() == i,
                forall|k: int| 0 <= k < i ==> sensor_inputs@[k] == 0,
            decreases SENSOR_COUNT - i,
        {
            sensor_inputs.push(0);
            i = i + 1;
        }
        let origin = Point3 { x: 0, y: 0, z: 0 };
        Car {
            size: CarSize { hw, hh, hl },
            sensor_config,
            sensor_inputs,
            gas: 0,
            brake: 0,
            steering: 0,
            wheels: Vec::new(),
            wheel_max_torque: 1000 * ONE,
            init_transform: Pose {
                translation: origin,
                rotation: Rotation { x: 0, y: 0, z: 0, w: ONE },
                scale: Point3 { x: ONE, y: ONE, z: ONE },
            },
            reset_at: None,
            index: 0,
            init_meters: 0,
            meters: 0,
            lap: 0,
            line_dir: origin,
            line_pos: origin,
            place: 0,
            prev_steering: 0,
            prev_torque: 0,
            prev_dir: 0,
        }
    }
}

/// What a sensor reads from the distance at which its ray hit, out of the
/// range `max_toi`: zero with nothing in range, rising toward `ONE` as the
/// obstacle comes closer.
pub open spec fn reading_spec(hit: Option<i64>, max_toi: int) -> int {
    match hit {
        Some(toi) => if 0 < toi < max_toi {
            ONE - trunc_div(toi * ONE, max_toi)
        } else {
            0
        },
        None => 0,
    }
}

/// The reading of one sensor, from the distance to what its ray hit, if it
/// hit anything, and the range of the sensor.
pub fn sensor_reading(hit: Option<i64>, max_toi: i64) -> (reading: i64)
    ensures
        reading == reading_spec(hit, max_toi as int),
        0 <= reading <= ONE,
{
    match hit {
        Some(toi) => {
            if 0 < toi && toi < max_toi {
                assert(0 <= (toi * 1_000_000) / (max_toi as int) < 1_000_000) by (nonlinear_arith)
                    requires
                        0 < toi < max_toi,
                ;
                let scaled: i128 = (toi as i128) * (ONE as i128) / (max_toi as i128);
                ONE - (scaled as i64)
            } else {
                0
            }
        },
        None => 0,
    }
}

/// Takes the outcome of one ray cast per sensor, in mount order, each the
/// distance to the hit if there was one, and refreshes the car's readings.
pub fn car_sensor_system(car: &mut Car, hits: &Vec<Option<i64>>, max_toi: i64)
    requires
        hits@.len() == SENSOR_COUNT,
    ensures
        final(car).sensor_inputs@.len() == SENSOR_COUNT,
        forall|i: int|
            0 <= i < SENSOR_COUNT ==> final(car).sensor_inputs@[i] == reading_spec(
                hits@[i],
                max_toi as int,
            ),
        *final(car) == (Car { sensor_inputs: final(car).sensor_inputs, ..*old(car) }),
        old(car).wf() ==> final(car).wf(),
{
    let mut inputs: Vec<i64> = Vec::new();
    let mut i: usize = 0;
    while i < SENSOR_COUNT
        invariant
            i <= SENSOR_COUNT,
            hits@.len() == SENSOR_COUNT,
            inputs@.len() == i,
            forall|k: int| 0 <= k < i ==> inputs@[k] == reading_spec(hits@[k], max_toi as int),
        decreases SENSOR_COUNT - i,
    {
        inputs.push(sensor_reading(hits[i], max_toi));
        i = i + 1;
    }
    car.sensor_inputs = inputs;
}

impl Car {
    /// Sets the controls from the levers: gas and brake as they are, and the
    /// steering as right less left.
    pub fn drive(&mut self, levers: Levers)
        requires
            levers.valid(),
        ensures
            final(self).gas == levers.gas,
            final(self).brake == levers.brake,
            final(self).steering == levers.right - levers.left,
            *final(self) == (Car {
                gas: final(self).gas,
                brake: final(self).brake,
                steering: final(self).steering,
                ..*old(self)
            }),
            old(self).wf() ==> final(self).wf(),
    {
        self.gas = levers.gas;
        self.brake = levers.brake;
        self.steering = -levers.left + levers.right;
    }

    /// The wheels to take out of the simulation along with the car.
    pub fn despawn_wheels(&self) -> (gone: Vec<u64>)
        ensures
            gone@ == self.wheels@,
    {
        let mut gone: Vec<u64> = Vec::new();
        let mut i: usize = 0;
        while i < self.wheels.len()
            invariant
                i <= self.wheels@.len(),
                gone@ == self.wheels@.subrange(0, i as int),
            decreases self.wheels@.len() - i,
        {
            gone.push(self.wheels[i]);
            i = i + 1;
            assert(gone@ =~= self.wheels@.subrange(0, i as int));
        }
        assert(gone@ =~= self.wheels@);
        gone
    }
}

/// The record of a car that enters the simulation at `transform` on the
/// given wheels: a default car but for its wheels, their torque limit, its
/// starting pose, its index and the distance it starts at.
pub fn spawn_car(
    wheels: Vec<u64>,
    transform: Pose,
    index: usize,
    init_meters: i64,
    max_torque: i64,
) -> (car: Car)
    ensures
        car.wf(),
        car.wheels == wheels,
        car.init_transform == transform,
        car.index == index,
        car.init_meters == init_meters,
        car.wheel_max_torque == max_torque,
        car.size == default_size(),
        forall|i: int|
            0 <= i < SENSOR_COUNT ==> car.sensor_config@[i] == default_mount(i, default_size()),
        forall|i: int| 0 <= i < SENSOR_COUNT ==> car.sensor_inputs@[i] == 0,
        car.gas == 0 && car.brake == 0 && car.steering == 0,
        car.reset_at is None,
        car.meters == 0 && car.lap == 0 && car.place == 0,
{
    let mut car = Car::default();
    car.wheels = wheels;
    car.wheel_max_torque = max_torque;
    car.init_transform = transform;
    car.init_meters = init_meters;
    car.index = index;
    car
}

} // verus!
