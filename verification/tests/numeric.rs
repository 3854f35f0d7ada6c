use llama_mlp::functional::swiglu;
use llama_mlp::scalar::{gated, silu};
use llama_mlp::{Builder, Error, Linear, Scalar, ShapeError, Tensor, WeightStore, MLP};

/// Double precision as a scalar. The `spec_` functions are the same
/// functions once more: they say what the executable ones compute.
#[derive(Clone, Copy, Debug, PartialEq)]
struct F(f64);

impl Scalar for F {
    fn spec_zero() -> Self {
        F(0.0)
    }

    fn spec_plus(self, rhs: Self) -> Self {
        F(self.0 + rhs.0)
    }

    fn spec_times(self, rhs: Self) -> Self {
        F(self.0 * rhs.0)
    }

    fn spec_sigmoid(self) -> Self {
        F(1.0 / (1.0 + (-self.0).exp()))
    }

    fn zero() -> Self {
        F(0.0)
    }

    fn plus(self, rhs: Self) -> Self {
        F(self.0 + rhs.0)
    }

    fn times(self, rhs: Self) -> Self {
        F(self.0 * rhs.0)
    }

    fn sigmoid(self) -> Self {
        F(1.0 / (1.0 + (-self.0).exp()))
    }
}

fn tensor(shape: Vec<usize>, values: Vec<f64>) -> Tensor<F> {
    Tensor::new(shape, values.into_iter().map(F).collect()).unwrap()
}

fn values(t: &Tensor<F>) -> Vec<f64> {
    t.data().iter().map(|v| v.0).collect()
}

fn reference_silu(z: f64) -> f64 {
    z / (1.0 + (-z).exp())
}

/// hidden 4, ffn 8: of the up-projection's result, one half repeats the input
/// twice and the other repeats twice the input; the down-projection reads
/// positions 0 and 4.
fn scenario_store() -> WeightStore<F> {
    let mut gate_up = vec![0.0; 16 * 4];
    for j in 0..8 {
        gate_up[j * 4 + j % 4] = 1.0;
    }
    for j in 8..16 {
        gate_up[j * 4 + (j - 8) % 4] = 2.0;
    }
    let mut down = vec![0.0; 4 * 8];
    for i in 0..4 {
        down[i * 8] = (i + 1) as f64;
        down[i * 8 + 4] = 1.0;
    }
    let mut store = WeightStore::new();
    store.insert("layers.0.mlp.gate_up_proj.weight", tensor(vec![16, 4], gate_up));
    store.insert("layers.0.mlp.gate_up_proj.bias", tensor(vec![16], vec![0.0; 16]));
    store.insert("layers.0.mlp.down_proj.weight", tensor(vec![4, 8], down));
    store.insert("layers.0.mlp.down_proj.bias", tensor(vec![4], vec![0.5, -0.5, 0.25, 0.0]));
    store
}

fn scenario_mlp(store: &WeightStore<F>) -> MLP<F> {
    let builder = Builder::new(store).pp("layers").pp("0").pp("mlp");
    MLP::from_builder(&builder).unwrap()
}

#[test]
fn silu_at_one_and_zero() {
    assert_eq!(silu(F(0.0)), F(0.0));
    let one = silu(F(1.0)).0;
    assert_eq!(one, 1.0 * (1.0 / (1.0 + (-1.0f64).exp())));
    assert!((one - 0.7310585786300049).abs() < 1e-15);
    assert!((silu(F(-2.0)).0 - (-0.2384058440442351)).abs() < 1e-15);
}

#[test]
fn gated_is_silu_times_value() {
    assert_eq!(gated(F(1.0), F(3.0)), F(silu(F(1.0)).0 * 3.0));
    assert_eq!(gated(F(0.0), F(7.0)), F(0.0));
}

#[test]
fn swiglu_matches_reference() {
    let x = tensor(
        vec![2, 6],
        vec![0.5, -1.0, 2.0, 3.0, 4.0, -5.0, 0.0, 1.5, -0.25, 7.0, -8.0, 9.0],
    );
    let y = swiglu(&x).unwrap();
    assert_eq!(y.shape(), &vec![2, 3]);
    let got = values(&y);
    let gate = [0.5, -1.0, 2.0, 0.0, 1.5, -0.25];
    let value = [3.0, 4.0, -5.0, 7.0, -8.0, 9.0];
    assert_eq!(got.len(), 6);
    for k in 0..6 {
        assert!((got[k] - reference_silu(gate[k]) * value[k]).abs() < 1e-6);
    }
    assert!((got[0] - 0.9336889968027819).abs() < 1e-12);
}

#[test]
fn swiglu_single_row() {
    let x = tensor(vec![4], vec![1.0, 0.0, 10.0, 20.0]);
    let y = swiglu(&x).unwrap();
    assert_eq!(y.shape(), &vec![2]);
    assert_eq!(values(&y), vec![silu(F(1.0)).0 * 10.0, 0.0]);
}

#[test]
fn swiglu_refuses_odd_width() {
    let x = tensor(vec![2, 3], vec![0.0; 6]);
    assert_eq!(swiglu(&x).unwrap_err(), Error::Shape(ShapeError::Odd { actual: 3 }));
}

#[test]
fn swiglu_refuses_no_dimension() {
    let x = tensor(vec![], vec![1.0]);
    assert_eq!(
        swiglu(&x).unwrap_err(),
        Error::Shape(ShapeError::Rank { expected: 1, actual: 0 })
    );
}

#[test]
fn linear_is_affine() {
    let mut store = WeightStore::new();
    store.insert("proj.weight", tensor(vec![2, 3], vec![1.0, 2.0, 3.0, 4.0, 5.0, 6.0]));
    store.insert("proj.bias", tensor(vec![2], vec![0.5, -1.0]));
    let linear = Linear::from_builder(true, &Builder::new(&store).pp("proj")).unwrap();
    assert_eq!(linear.in_features(), 3);
    assert_eq!(linear.out_features(), 2);
    let x = tensor(vec![2, 3], vec![1.0, 0.0, -1.0, 2.0, 1.0, 0.5]);
    let y = linear.forward(&x).unwrap();
    assert_eq!(y.shape(), &vec![2, 2]);
    assert_eq!(values(&y), vec![-1.5, -3.0, 6.0, 15.0]);
}

#[test]
fn linear_without_bias() {
    let mut store = WeightStore::new();
    store.insert("proj.weight", tensor(vec![2, 3], vec![1.0, 2.0, 3.0, 4.0, 5.0, 6.0]));
    let linear = Linear::from_builder(false, &Builder::new(&store).pp("proj")).unwrap();
    assert!(linear.bias().is_none());
    let y = linear.forward(&tensor(vec![3], vec![1.0, 1.0, 1.0])).unwrap();
    assert_eq!(y.shape(), &vec![2]);
    assert_eq!(values(&y), vec![6.0, 15.0]);
}

#[test]
fn linear_keeps_leading_dimensions() {
    let mut store = WeightStore::new();
    store.insert("weight", tensor(vec![1, 2], vec![10.0, 1.0]));
    let linear = Linear::from_builder(false, &Builder::new(&store)).unwrap();
    let x = tensor(vec![2, 3, 2], (0..12).map(|v| v as f64).collect());
    let y = linear.forward(&x).unwrap();
    assert_eq!(y.shape(), &vec![2, 3, 1]);
    assert_eq!(values(&y), vec![1.0, 23.0, 45.0, 67.0, 89.0, 111.0]);
}

#[test]
fn forward_end_to_end() {
    let store = scenario_store();
    let mlp = scenario_mlp(&store);
    let x = tensor(vec![4], vec![1.0, 0.0, 0.0, 0.0]);
    let y = mlp.forward(&x).unwrap();
    assert_eq!(y.shape(), &vec![4]);
    let g = reference_silu(1.0) * 2.0;
    let expected: Vec<f64> = [0.5, -0.5, 0.25, 0.0]
        .iter()
        .enumerate()
        .map(|(i, b)| g * (i + 1) as f64 + g + b)
        .collect();
    assert_eq!(values(&y), expected);
    assert!((values(&y)[0] - 3.4242343145200195).abs() < 1e-12);
}

#[test]
fn forward_on_a_batch() {
    let store = scenario_store();
    let mlp = scenario_mlp(&store);
    let x = tensor(vec![2, 1, 4], vec![1.0, 0.0, 0.0, 0.0, 0.0, 0.0, 0.0, 0.0]);
    let y = mlp.forward(&x).unwrap();
    assert_eq!(y.shape(), &vec![2, 1, 4]);
    let got = values(&y);
    let single = values(&mlp.forward(&tensor(vec![4], vec![1.0, 0.0, 0.0, 0.0])).unwrap());
    assert_eq!(&got[..4], &single[..]);
    assert_eq!(&got[4..], &[0.5, -0.5, 0.25, 0.0]);
}

#[test]
fn forward_is_deterministic() {
    let store = scenario_store();
    let mlp = scenario_mlp(&store);
    let x = tensor(vec![3, 4], (0..12).map(|v| v as f64 * 0.37 - 1.9).collect());
    let first = values(&mlp.forward(&x).unwrap());
    let second = values(&mlp.forward(&x).unwrap());
    let again = values(&scenario_mlp(&store).forward(&x).unwrap());
    let bits = |v: &Vec<f64>| v.iter().map(|f| f.to_bits()).collect::<Vec<u64>>();
    assert_eq!(bits(&first), bits(&second));
    assert_eq!(bits(&first), bits(&again));
    assert_eq!(values(&x), (0..12).map(|v| v as f64 * 0.37 - 1.9).collect::<Vec<f64>>());
}

#[test]
fn forward_refuses_wrong_width() {
    let store = scenario_store();
    let mlp = scenario_mlp(&store);
    for width in [0usize, 1, 3, 5, 8, 16] {
        let x = tensor(vec![2, width], vec![0.0; 2 * width]);
        assert_eq!(
            mlp.forward(&x).unwrap_err(),
            Error::Shape(ShapeError::Dim { expected: 4, actual: width })
        );
    }
    assert_eq!(
        mlp.forward(&tensor(vec![], vec![1.0])).unwrap_err(),
        Error::Shape(ShapeError::Rank { expected: 1, actual: 0 })
    );
}

#[test]
fn from_builder_copies_the_weights() {
    let mut store = scenario_store();
    let mlp = scenario_mlp(&store);
    store.insert("layers.0.mlp.down_proj.bias", tensor(vec![4], vec![9.0; 4]));
    assert_eq!(values(mlp.down_proj().bias().unwrap()), vec![0.5, -0.5, 0.25, 0.0]);
    assert_eq!(mlp.gate_up_proj().weight().shape(), &vec![16, 4]);
    let rebound = scenario_mlp(&store);
    assert_eq!(values(rebound.down_proj().bias().unwrap()), vec![9.0; 4]);
}
