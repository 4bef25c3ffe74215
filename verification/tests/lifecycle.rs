use car_dqn::car::Car;
use car_dqn::fixed::ONE;
use car_dqn::nn::dqn::{
    begin_tick, bootstrap_target, car_start_system, car_tick, car_tick_with,
    dqn_dash_update_system, dqn_start_system, dqn_switch_system, finish_training, look,
    sample_batch, Sighting, TickStart,
};
use car_dqn::nn::dqn_bevy::{
    CarDqnResource, CarDqnResources, DqnParams, DqnResource, Respawn, MIN_EPS,
};
use car_dqn::nn::observe::{is_blank, Motion};
use car_dqn::nn::params::{GAMMA, RESPAWN_DELAY, SENSOR_COUNT, STATE_SIZE};
use car_dqn::nn::replay::Observation;
use car_dqn::nn::util::Dice;

fn params() -> DqnParams {
    DqnParams {
        batch_size: 4,
        buffer_size: 100,
        persist_batch_size: 5,
        epochs: 3,
        sync_interval_steps: 10,
        step_duration: 100_000,
        decay: 1_000,
        speed_limit: 20 * ONE,
    }
}

fn obs(tag: i64) -> Observation {
    let mut o = [0i64; STATE_SIZE];
    for (i, x) in o.iter_mut().enumerate() {
        *x = tag * 100 + i as i64 + 1;
    }
    o
}

fn sighting(car_id: u64, tag: i64, crash: bool, is_hid: bool) -> Sighting {
    Sighting { car_id, is_hid, crash, obs: obs(tag), reward: tag * 7 }
}

/// A run halfway down its exploration rate.
fn run() -> DqnResource {
    let mut dqn = DqnResource::new(params(), true);
    dqn.eps = ONE / 2;
    dqn
}

const EXPLOIT: Dice = Dice { roll: 999_999, random_action: 5 };
const EXPLORE: Dice = Dice { roll: 0, random_action: 5 };

#[test]
fn new_run() {
    let dqn = DqnResource::new(params(), true);
    assert_eq!(dqn.decided_at, None);
    assert_eq!((dqn.step, dqn.crashes), (0, 0));
    assert_eq!(dqn.rb.len(), 0);
    assert_eq!(dqn.rb.capacity(), 100);
    assert_eq!((dqn.eps, dqn.max_eps, dqn.min_eps), (ONE, ONE, 10_000));
    assert_eq!(MIN_EPS, 10_000);
    assert!(dqn.respawn.is_none());
    assert!(dqn.use_brain);
    assert!(!DqnResource::new(params(), false).use_brain);
}

#[test]
fn starting_grid_follows_the_first_car() {
    assert!(car_start_system(0).is_empty());
    let orders = car_start_system(4);
    assert_eq!(orders.len(), 4);
    for (i, o) in orders.iter().enumerate() {
        assert_eq!(o.index, i);
        assert_eq!(o.is_hid, i == 0);
    }
}

#[test]
fn decision_clock() {
    let mut dqn = DqnResource::new(params(), true);
    assert!(matches!(begin_tick(&mut dqn, 0), TickStart::Run { should_act: false }));
    assert_eq!(dqn.step, 0);
    assert!(matches!(begin_tick(&mut dqn, 16_000), TickStart::Run { should_act: true }));
    assert_eq!((dqn.step, dqn.decided_at), (1, Some(16_000)));
    assert!(matches!(begin_tick(&mut dqn, 32_000), TickStart::Run { should_act: false }));
    assert!(matches!(begin_tick(&mut dqn, 116_000), TickStart::Run { should_act: false }));
    assert_eq!((dqn.step, dqn.decided_at), (1, Some(16_000)));
    assert!(matches!(begin_tick(&mut dqn, 116_001), TickStart::Run { should_act: true }));
    assert_eq!((dqn.step, dqn.decided_at), (2, Some(116_001)));
    // a clock that runs backward decides nothing
    assert!(matches!(begin_tick(&mut dqn, 5), TickStart::Run { should_act: false }));
    assert_eq!((dqn.step, dqn.decided_at), (2, Some(116_001)));
}

#[test]
fn decision_clock_at_the_end_of_time() {
    let mut dqn = DqnResource::new(params(), true);
    assert!(matches!(begin_tick(&mut dqn, u64::MAX - 10), TickStart::Run { should_act: true }));
    assert!(matches!(begin_tick(&mut dqn, u64::MAX), TickStart::Run { should_act: false }));
    assert_eq!(dqn.step, 1);
}

#[test]
fn first_decision_tick_records_nothing() {
    let mut dqn = run();
    let mut cars = CarDqnResources::new();
    cars.add_car(7);
    let mut car = Car::default();
    let tick = car_tick_with(
        &mut dqn,
        &mut cars,
        &mut car,
        &sighting(7, 1, false, true),
        &vec![1, 2, 3, 9, 0, 0, 0, 0],
        true,
        10,
        EXPLOIT,
    );
    assert_eq!(dqn.rb.len(), 0);
    assert_eq!((tick.action, tick.exploration), (3, false));
    assert!(tick.steer && !tick.train && !tick.despawn && tick.persist.is_none());
    let carried = cars.prev(7);
    assert_eq!(carried.prev_obs, obs(1));
    assert_eq!((carried.prev_action, carried.prev_reward), (3, 7));
    assert_eq!((car.gas, car.brake, car.steering), (0, 0, ONE));
}

#[test]
fn decision_tick_records_the_last_step() {
    let mut dqn = run();
    let mut cars = CarDqnResources::new();
    cars.remember(7, CarDqnResource { prev_obs: obs(1), prev_action: 6, prev_reward: 99 });
    let mut car = Car::default();
    let tick = car_tick_with(
        &mut dqn,
        &mut cars,
        &mut car,
        &sighting(7, 2, false, false),
        &vec![1, 2, 3, 9, 0, 0, 0, 0],
        true,
        10,
        EXPLORE,
    );
    assert_eq!(dqn.rb.len(), 1);
    let t = dqn.rb.get(0);
    assert_eq!(t.obs, obs(1));
    assert_eq!(t.action, 6);
    assert_eq!(t.reward, 14);
    assert_eq!(t.next_obs, obs(2));
    assert!(!t.done);
    assert_eq!((tick.action, tick.exploration), (5, true));
    assert!(tick.steer && !tick.train);
    assert_eq!((car.gas, car.brake, car.steering), (ONE, 0, ONE));
    assert_eq!(cars.prev(7).prev_action, 5);
    assert_eq!(cars.prev(7).prev_obs, obs(2));
}

#[test]
fn between_decisions_nothing_is_recorded_or_steered() {
    let mut dqn = run();
    let mut cars = CarDqnResources::new();
    cars.remember(7, CarDqnResource { prev_obs: obs(1), prev_action: 6, prev_reward: 99 });
    let mut car = Car::default();
    car.gas = 123;
    let tick = car_tick_with(
        &mut dqn,
        &mut cars,
        &mut car,
        &sighting(7, 2, false, true),
        &vec![4, 2],
        false,
        10,
        EXPLOIT,
    );
    assert_eq!(dqn.rb.len(), 0);
    assert!(!tick.steer && !tick.train && !tick.despawn && tick.persist.is_none());
    assert_eq!(tick.action, 0);
    assert_eq!(car.gas, 123);
    assert_eq!(cars.prev(7).prev_action, 6);
    assert_eq!(cars.prev(7).prev_obs, obs(1));
}

#[test]
fn unknown_car_records_nothing() {
    let mut dqn = run();
    let mut cars = CarDqnResources::new();
    let mut car = Car::default();
    let tick = car_tick_with(
        &mut dqn,
        &mut cars,
        &mut car,
        &sighting(3, 2, false, true),
        &vec![4, 2],
        true,
        10,
        EXPLOIT,
    );
    assert_eq!(dqn.rb.len(), 0);
    assert!(tick.steer);
    assert_eq!(cars.prev(3).prev_obs, obs(2));
}

#[test]
fn crash_schedules_one_respawn() {
    let mut dqn = run();
    let mut cars = CarDqnResources::new();
    cars.remember(7, CarDqnResource { prev_obs: obs(1), prev_action: 2, prev_reward: 0 });
    let mut car = Car::default();
    car.index = 4;
    car.gas = 55;
    let crash_time = 3_000_000;
    let seen = Sighting { car_id: 7, is_hid: true, crash: true, obs: obs(2), reward: -ONE };
    // a crash is recorded between decision ticks too
    let tick = car_tick_with(&mut dqn, &mut cars, &mut car, &seen, &vec![1, 2], false, crash_time, EXPLOIT);
    assert!(tick.despawn && !tick.steer && !tick.train);
    assert_eq!(dqn.crashes, 1);
    assert!(!dqn.use_brain);
    let r: Respawn = dqn.respawn.unwrap();
    assert_eq!((r.crashed_at, r.index, r.is_hid), (crash_time, 4, true));
    assert_eq!(RESPAWN_DELAY, 500_000);
    assert_eq!(dqn.rb.len(), 1);
    let t = dqn.rb.get(0);
    assert_eq!(t.reward, -ONE);
    assert!(t.done);
    assert_eq!(t.action, 2);
    assert_eq!(car.gas, 55);
    assert!(is_blank(&cars.prev(7).prev_obs));
    assert!(cars.cars.is_empty());

    // until half a second has passed nothing comes back
    for now in [crash_time, crash_time + 1, crash_time + 499_999, crash_time + 500_000] {
        assert!(matches!(begin_tick(&mut dqn, now), TickStart::Run { .. }));
        assert!(!dqn.use_brain);
        assert!(dqn.respawn.is_some());
    }
    // then the car comes back, once
    match begin_tick(&mut dqn, crash_time + 500_001) {
        TickStart::Respawn(order) => assert_eq!((order.index, order.is_hid), (4, true)),
        other => panic!("no respawn: {:?}", other),
    }
    assert!(dqn.use_brain);
    assert!(dqn.respawn.is_none());
    assert_eq!(dqn.crashes, 1);
    for now in [crash_time + 500_002, crash_time + 900_000, crash_time + 5_000_000] {
        assert!(matches!(begin_tick(&mut dqn, now), TickStart::Run { .. }));
    }
}

#[test]
fn respawn_tick_does_not_decide() {
    let mut dqn = DqnResource::new(params(), false);
    dqn.respawn = Some(Respawn { crashed_at: 100, index: 1, is_hid: false });
    let start = begin_tick(&mut dqn, 100 + RESPAWN_DELAY + 1);
    assert!(matches!(start, TickStart::Respawn(_)));
    assert_eq!((dqn.step, dqn.decided_at), (0, None));
}

#[test]
fn nothing_happens_while_the_policy_is_off() {
    let mut dqn = DqnResource::new(params(), false);
    let mut cars = CarDqnResources::new();
    cars.remember(7, CarDqnResource { prev_obs: obs(1), prev_action: 2, prev_reward: 0 });
    let mut car = Car::default();
    for k in 0..5 {
        let tick = car_tick_with(
            &mut dqn,
            &mut cars,
            &mut car,
            &sighting(7, k + 2, false, true),
            &vec![1, 2],
            true,
            1000 * k as u64,
            EXPLORE,
        );
        assert!(!tick.steer && !tick.train && tick.persist.is_none());
        assert_eq!(dqn.rb.len(), 0);
        assert!(!dqn.use_brain);
        assert_eq!((car.gas, car.brake, car.steering), (0, 0, 0));
    }
}

#[test]
fn later_crash_replaces_the_pending_respawn() {
    let mut dqn = run();
    let mut cars = CarDqnResources::new();
    let mut first = Car::default();
    first.index = 1;
    let mut second = Car::default();
    second.index = 2;
    car_tick_with(&mut dqn, &mut cars, &mut first, &sighting(1, 1, true, true), &vec![0], true, 100, EXPLOIT);
    car_tick_with(&mut dqn, &mut cars, &mut second, &sighting(2, 1, true, false), &vec![0], true, 200, EXPLOIT);
    assert_eq!(dqn.crashes, 2);
    let r = dqn.respawn.unwrap();
    assert_eq!((r.crashed_at, r.index, r.is_hid), (200, 2, false));
}

#[test]
fn training_is_due_for_the_followed_car_with_a_full_batch() {
    let mut dqn = run();
    let mut cars = CarDqnResources::new();
    let mut car = Car::default();
    let mut other = Car::default();
    for k in 1..=6i64 {
        let tick = car_tick_with(&mut dqn, &mut cars, &mut car, &sighting(7, k, false, true), &vec![1, 2], true, k as u64, EXPLOIT);
        assert_eq!(dqn.rb.len() as i64, k - 1);
        assert_eq!(tick.train, k - 1 >= 4);
        let tick = car_tick_with(&mut dqn, &mut cars, &mut other, &sighting(8, 0, false, false), &vec![1, 2], false, k as u64, EXPLOIT);
        assert!(!tick.train);
    }
    // a car that the training does not follow calls for none
    cars.remember(9, CarDqnResource { prev_obs: obs(1), prev_action: 0, prev_reward: 0 });
    let tick = car_tick_with(&mut dqn, &mut cars, &mut other, &sighting(9, 3, false, false), &vec![1, 2], true, 7, EXPLOIT);
    assert!(tick.steer && !tick.train);
    assert_eq!(dqn.rb.len(), 6);
}

#[test]
fn flush_falls_due_above_the_batch() {
    let mut dqn = run();
    let mut cars = CarDqnResources::new();
    let mut car = Car::default();
    let mut flushed: Vec<usize> = Vec::new();
    for k in 1..=14i64 {
        let tick = car_tick_with(&mut dqn, &mut cars, &mut car, &sighting(7, k, false, false), &vec![1, 2], true, k as u64, EXPLOIT);
        if let Some(batch) = tick.persist {
            flushed.push(batch.len());
            assert_eq!(batch.last().unwrap().next_obs, obs(k));
            assert_eq!(dqn.rb.persisted(), dqn.rb.len());
        }
    }
    // thirteen transitions, flushed whenever six wait
    assert_eq!(dqn.rb.len(), 13);
    assert_eq!(flushed, vec![6, 6]);
    assert_eq!(dqn.rb.persisted(), 12);
}

#[test]
fn car_tick_casts_its_own_dice() {
    let mut dqn = DqnResource::new(params(), true);
    let mut cars = CarDqnResources::new();
    let mut car = Car::default();
    let scores = vec![0, 0, 0, 0, 0, 0, 0, 9];
    // full epsilon: always a random action among those scored
    let mut seen = [false; 8];
    for k in 1..=400i64 {
        let tick = car_tick(&mut dqn, &mut cars, &mut car, &sighting(7, k, false, false), &scores, true, k as u64);
        assert!(tick.exploration);
        assert!(tick.action < 8);
        seen[tick.action] = true;
        assert_eq!(cars.prev(7).prev_action, tick.action);
    }
    assert!(seen.iter().all(|&s| s));
    // no epsilon: always the best-scored
    dqn.eps = 0;
    dqn.min_eps = 0;
    for k in 1..=50i64 {
        let tick = car_tick(&mut dqn, &mut cars, &mut car, &sighting(7, k, false, false), &scores, true, k as u64);
        assert_eq!((tick.action, tick.exploration), (7, false));
        assert_eq!((car.gas, car.brake, car.steering), (0, ONE, ONE));
    }
}

#[test]
fn epsilon_decays_to_its_floor() {
    let mut p = params();
    p.decay = 300_000;
    let mut dqn = DqnResource::new(p, true);
    let mut last = dqn.eps;
    let expected = [700_000, 400_000, 100_000, 10_000, 10_000, 10_000];
    for e in expected {
        finish_training(&mut dqn);
        assert_eq!(dqn.eps, e);
        assert!(dqn.eps <= last);
        assert!(dqn.eps >= dqn.min_eps);
        last = dqn.eps;
    }
}

#[test]
fn epsilon_without_decay_stays() {
    let mut p = params();
    p.decay = 0;
    let mut dqn = DqnResource::new(p, true);
    finish_training(&mut dqn);
    assert_eq!(dqn.eps, ONE);
}

#[test]
fn sync_every_interval_once_two_batches_are_held() {
    let mut dqn = DqnResource::new(params(), true);
    let o = obs(1);
    // step 0 is a multiple of the interval, but the memory is short
    for _ in 0..7 {
        dqn.rb.store(o, 0, 0, o, false);
    }
    assert!(!finish_training(&mut dqn));
    dqn.rb.store(o, 0, 0, o, false);
    assert!(finish_training(&mut dqn));
    dqn.step = 9;
    assert!(!finish_training(&mut dqn));
    dqn.step = 10;
    assert!(finish_training(&mut dqn));
    dqn.step = 11;
    assert!(!finish_training(&mut dqn));
    dqn.step = 30;
    assert!(finish_training(&mut dqn));
}

#[test]
fn sample_batch_needs_a_full_batch() {
    let mut dqn = DqnResource::new(params(), true);
    let o = obs(1);
    assert!(sample_batch(&dqn).is_none());
    for k in 0..3 {
        dqn.rb.store(obs(k), k as usize, k, o, false);
        assert!(sample_batch(&dqn).is_none());
    }
    dqn.rb.store(obs(3), 3, 3, o, true);
    assert!(sample_batch(&dqn).is_some());
}

#[test]
fn sample_batch_draws_from_the_memory() {
    let mut dqn = DqnResource::new(params(), true);
    for k in 0..9i64 {
        dqn.rb.store(obs(k), k as usize, k * 3, obs(k + 1), k % 2 == 0);
    }
    let mut seen = [false; 9];
    for _ in 0..300 {
        let (s, a, r, sn, done) = sample_batch(&dqn).unwrap();
        assert_eq!((s.len(), a.len(), r.len(), sn.len(), done.len()), (4, 4, 4, 4, 4));
        for k in 0..4 {
            let i = a[k];
            assert!(i < 9);
            seen[i] = true;
            assert_eq!(s[k], obs(i as i64));
            assert_eq!(r[k], i as i64 * 3);
            assert_eq!(sn[k], obs(i as i64 + 1));
            assert_eq!(done[k], i % 2 == 0);
        }
    }
    assert!(seen.iter().all(|&s| s));
}

#[test]
fn bootstrap_target_formula() {
    assert_eq!(GAMMA, 990_000);
    assert_eq!(bootstrap_target(100_000, false, 2 * ONE), 2_080_000);
    assert_eq!(bootstrap_target(100_000, true, 2 * ONE), 100_000);
    assert_eq!(bootstrap_target(-ONE, true, 50 * ONE), -ONE);
    assert_eq!(bootstrap_target(0, false, -ONE), -990_000);
    assert_eq!(bootstrap_target(5, false, 1), 5);
    assert_eq!(bootstrap_target(5, false, -1), 5);
    assert_eq!(bootstrap_target(5, false, 2), 6);
    assert_eq!(bootstrap_target(5, false, -2), 4);
    assert_eq!(bootstrap_target(i64::MAX, false, ONE), i64::MAX);
    assert_eq!(bootstrap_target(i64::MIN, false, -ONE), i64::MIN);
    assert_eq!(bootstrap_target(0, false, i64::MAX), 9_131_138_316_486_228_048);
}

#[test]
fn switch_toggles_the_policy() {
    let mut dqn = DqnResource::new(params(), true);
    dqn_switch_system(&mut dqn, false);
    assert!(dqn.use_brain);
    dqn_switch_system(&mut dqn, true);
    assert!(!dqn.use_brain);
    dqn_switch_system(&mut dqn, true);
    assert!(dqn.use_brain);
}

#[test]
fn dashboard_snapshot() {
    let mut dqn = DqnResource::new(params(), true);
    let o = obs(1);
    for _ in 0..3 {
        dqn.rb.store(o, 0, 0, o, false);
    }
    dqn.step = 47;
    dqn.crashes = 2;
    dqn.eps = 123_456;
    let dash = dqn_dash_update_system(&dqn);
    assert_eq!((dash.rb_len, dash.step, dash.syncs), (3, 47, 4));
    assert_eq!((dash.crashes, dash.eps), (2, 123_456));
}

#[test]
fn side_table() {
    let mut cars = CarDqnResources::new();
    assert!(is_blank(&cars.prev(1).prev_obs));
    cars.add_car(1);
    cars.add_car(2);
    assert_eq!(cars.cars.len(), 2);
    let fresh = cars.prev(1);
    assert!(is_blank(&fresh.prev_obs));
    assert_eq!((fresh.prev_action, fresh.prev_reward), (0, 0));
    cars.remember(1, CarDqnResource { prev_obs: obs(3), prev_action: 4, prev_reward: 5 });
    assert_eq!(cars.prev(1).prev_obs, obs(3));
    assert_eq!((cars.prev(1).prev_action, cars.prev(1).prev_reward), (4, 5));
    assert!(is_blank(&cars.prev(2).prev_obs));
    // entering a car again starts it afresh
    cars.add_car(1);
    assert!(is_blank(&cars.prev(1).prev_obs));
    cars.del_car(&2);
    assert_eq!(cars.cars.len(), 1);
    cars.del_car(&2);
    assert_eq!(cars.cars.len(), 1);
    let c = CarDqnResource::new();
    assert!(is_blank(&c.prev_obs));
}

#[test]
fn look_builds_the_sighting() {
    let mut car = Car::default();
    car.sensor_inputs = (0..SENSOR_COUNT as i64).map(|i| i + 1).collect();
    let motion = Motion { speed: 10 * ONE, vel_cos: Some(500_000), pos_cos: Some(-500_000), lateral: 0 };
    let seen = look(&car, 42, true, false, &motion, 10 * ONE);
    assert_eq!((seen.car_id, seen.is_hid, seen.crash), (42, true, false));
    assert_eq!(seen.reward, -500_000);
    assert_eq!(&seen.obs[..3], &[360_000, 500_000, -500_000]);
    for i in 0..SENSOR_COUNT {
        assert_eq!(seen.obs[3 + i], i as i64 + 1);
    }
    let crashed = look(&car, 42, false, true, &motion, 10 * ONE);
    assert_eq!(crashed.reward, -ONE);
    assert!(crashed.crash);
    assert_eq!(crashed.obs, seen.obs);
}

#[test]
fn undefined_angles_count_as_aligned() {
    let car = Car::default();
    let motion = Motion { speed: 0, vel_cos: None, pos_cos: None, lateral: 3 * ONE };
    let seen = look(&car, 1, false, false, &motion, 10 * ONE);
    assert_eq!(seen.reward, 0);
    assert_eq!(&seen.obs[..3], &[0, ONE, ONE]);
    let motion = Motion { speed: 5 * ONE, vel_cos: None, pos_cos: Some(-1), lateral: 0 };
    let seen = look(&car, 1, false, false, &motion, 10 * ONE);
    // cosine one, heading against the track: minus a half
    assert_eq!(seen.reward, -500_000);
}

#[test]
fn start_of_a_run() {
    let (dqn, cars) = dqn_start_system(params(), false);
    assert!(dqn.is_wf());
    assert!(!dqn.use_brain);
    assert_eq!((dqn.step, dqn.crashes, dqn.eps), (0, 0, ONE));
    assert_eq!(dqn.rb.len(), 0);
    assert_eq!(dqn.params.batch_size, 4);
    assert!(cars.cars.is_empty());
}

#[test]
fn valid_parameters() {
    assert!(params().is_valid());
    let mut p = params();
    p.buffer_size = 0;
    assert!(!p.is_valid());
    let mut p = params();
    p.sync_interval_steps = 0;
    assert!(!p.is_valid());
    let mut p = params();
    p.decay = -1;
    assert!(!p.is_valid());
    let mut p = params();
    p.decay = 0;
    p.batch_size = 0;
    p.epochs = 0;
    p.persist_batch_size = 0;
    p.step_duration = 0;
    p.speed_limit = -3;
    assert!(p.is_valid());
}

#[test]
fn well_formed_state() {
    let mut dqn = DqnResource::new(params(), true);
    assert!(dqn.is_wf());
    assert!(dqn.rb.is_wf());
    dqn.eps = dqn.min_eps - 1;
    assert!(!dqn.is_wf());
    dqn.eps = dqn.max_eps + 1;
    assert!(!dqn.is_wf());
    dqn.eps = dqn.min_eps;
    assert!(dqn.is_wf());
    dqn.params.buffer_size = 7;
    assert!(!dqn.is_wf());
    dqn.params.buffer_size = 100;
    dqn.params.persist_batch_size = 6;
    assert!(!dqn.is_wf());
    dqn.params.persist_batch_size = 5;
    dqn.params.sync_interval_steps = 0;
    assert!(!dqn.is_wf());
}

#[test]
fn empty_minibatch() {
    let mut p = params();
    p.batch_size = 0;
    let dqn = DqnResource::new(p, true);
    let (s, a, r, sn, done) = sample_batch(&dqn).unwrap();
    assert!(s.is_empty() && a.is_empty() && r.is_empty() && sn.is_empty() && done.is_empty());
}
