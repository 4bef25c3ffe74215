use car_dqn::nn::params::{ACTIONS, STATE_SIZE};
use dfdx::prelude::{HasArrayData, Linear, Module, ReLU, ResetParams, Tensor1D, TensorCreator};
use rand::{rngs::StdRng, SeedableRng};

const HIDDEN_SIZE: usize = 16;

type QNetwork = (
    (Linear<STATE_SIZE, HIDDEN_SIZE>, ReLU),
    (Linear<HIDDEN_SIZE, HIDDEN_SIZE>, ReLU),
    Linear<HIDDEN_SIZE, ACTIONS>,
);

fn seeded(seed: u64) -> QNetwork {
    let mut rng = StdRng::seed_from_u64(seed);
    let mut qn = QNetwork::default();
    qn.reset_params(&mut rng);
    qn
}

#[test]
fn seeded_networks_start_alike() {
    let a = seeded(0);
    let b = seeded(0);
    assert_eq!(a.0 .0.weight.data(), b.0 .0.weight.data());
    assert_eq!(a.0 .0.bias.data(), b.0 .0.bias.data());
    assert_eq!(a.1 .0.weight.data(), b.1 .0.weight.data());
    assert_eq!(a.1 .0.bias.data(), b.1 .0.bias.data());
    assert_eq!(a.2.weight.data(), b.2.weight.data());
    assert_eq!(a.2.bias.data(), b.2.bias.data());

    let mut input = [0f32; STATE_SIZE];
    for (i, x) in input.iter_mut().enumerate() {
        *x = i as f32 / STATE_SIZE as f32;
    }
    let qa = a.forward(Tensor1D::new(input));
    let qb = b.forward(Tensor1D::new(input));
    assert_eq!(qa.data(), qb.data());
    assert_eq!(qa.data().len(), ACTIONS);
}

#[test]
fn another_seed_starts_elsewhere() {
    let a = seeded(0);
    let c = seeded(1);
    assert_ne!(a.0 .0.weight.data(), c.0 .0.weight.data());
}
