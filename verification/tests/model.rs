use libsvm::foreign::{CSvmParameter, KernelType, SvmType};
use libsvm::model::{
    decision_value_len, decision_values_buffer, fit_buffer, labels_buffer, model_from_c_rep,
    probability_buffer, probability_supported, save_succeeded, slot_len, sv_indices_buffer,
    SvmModel,
};
use libsvm::param::{KernelParam, SvmParameter, SvmTypeParam, Weight};
use libsvm::prob::{check_outcome, SvmProblem};
use libsvm::{DataVec, Double, SvmError, SvmNode};

fn d(x: f64) -> Double {
    Double::from_bits(x.to_bits())
}

fn two_class_problem() -> SvmProblem {
    let mut prob = SvmProblem::new();
    prob.add(d(1.0), DataVec::from_dense(vec![d(1.0), d(1.0)])).unwrap();
    prob.add(d(1.0), DataVec::from_dense(vec![d(2.0), d(1.5)])).unwrap();
    prob.add(d(-1.0), DataVec::from_dense(vec![d(-1.0), d(-1.0)])).unwrap();
    prob.add(d(-1.0), DataVec::from_dense(vec![d(-2.0), d(-0.5)])).unwrap();
    prob
}

fn weighted_params() -> SvmParameter {
    SvmParameter::new(
        KernelParam::Rbf { gamma: d(0.5) },
        SvmTypeParam::CSvc {
            c: d(10.0),
            weights: vec![
                Weight { label: 1, weight: d(2.0) },
                Weight { label: -1, weight: d(0.5) },
            ],
        },
        true,
        false,
        d(100.0),
        d(0.001),
    )
}

#[test]
fn decision_values_count_the_pairs_of_classes() {
    assert_eq!(decision_value_len(0), 0);
    assert_eq!(decision_value_len(1), 0);
    assert_eq!(decision_value_len(2), 1);
    assert_eq!(decision_value_len(3), 3);
    assert_eq!(decision_value_len(4), 6);
    assert_eq!(decision_value_len(10), 45);
    assert_eq!(decision_value_len(65536), 2147450880);
    assert_eq!(decision_value_len(i32::MAX), 2305843005992468481);
}

#[test]
fn slots_are_the_count_or_none() {
    assert_eq!(slot_len(0), 0);
    assert_eq!(slot_len(1), 1);
    assert_eq!(slot_len(17), 17);
    assert_eq!(slot_len(i32::MAX), 2147483647);
    assert_eq!(slot_len(-1), 0);
    assert_eq!(slot_len(i32::MIN), 0);
}

#[test]
fn a_missing_buffer_is_made_to_measure() {
    assert_eq!(labels_buffer(3, None), vec![0, 0, 0]);
    assert_eq!(labels_buffer(0, None), Vec::<i32>::new());
    assert_eq!(labels_buffer(-4, None), Vec::<i32>::new());
    assert_eq!(sv_indices_buffer(5, None), vec![0, 0, 0, 0, 0]);
    assert_eq!(decision_values_buffer(3, None, 0.0), vec![0.0, 0.0, 0.0]);
    assert_eq!(decision_values_buffer(2, None, 0.0), vec![0.0]);
    assert_eq!(decision_values_buffer(1, None, 0.0), Vec::<f64>::new());
    assert_eq!(probability_buffer(3, None, 0.0), vec![0.0, 0.0, 0.0]);
    assert_eq!(probability_buffer(2, None, d(0.0)), vec![d(0.0), d(0.0)]);
}

#[test]
fn a_buffer_that_fits_is_handed_on() {
    assert_eq!(labels_buffer(3, Some(vec![7, 8, 9])), vec![7, 8, 9]);
    assert_eq!(labels_buffer(2, Some(vec![7, 8, 9])), vec![7, 8, 9]);
    assert_eq!(sv_indices_buffer(0, Some(vec![7])), vec![7]);
    assert_eq!(decision_values_buffer(3, Some(vec![1.0, 2.0, 3.0]), 0.0), vec![1.0, 2.0, 3.0]);
    assert_eq!(decision_values_buffer(2, Some(vec![1.0, 2.0, 3.0]), 0.0), vec![1.0, 2.0, 3.0]);
    assert_eq!(probability_buffer(2, Some(vec![1.0, 2.0, 3.0]), 0.0), vec![1.0, 2.0, 3.0]);
}

#[test]
fn a_short_buffer_is_made_longer() {
    assert_eq!(labels_buffer(3, Some(vec![7])), vec![7, 0, 0]);
    assert_eq!(sv_indices_buffer(2, Some(Vec::new())), vec![0, 0]);
    assert_eq!(
        decision_values_buffer(4, Some(vec![1.0, 2.0]), 0.0),
        vec![1.0, 2.0, 0.0, 0.0, 0.0, 0.0]
    );
    assert_eq!(decision_values_buffer(3, Some(vec![1.0, 2.0]), 0.0), vec![1.0, 2.0, 0.0]);
    assert_eq!(probability_buffer(3, Some(vec![1.0]), 0.0), vec![1.0, 0.0, 0.0]);
    assert_eq!(fit_buffer(Some(vec![1u8, 2]), 4, 9u8), vec![1, 2, 9, 9]);
    assert_eq!(fit_buffer(None, 2, 9u8), vec![9, 9]);
}

#[test]
fn status_numbers() {
    assert!(save_succeeded(0));
    assert!(!save_succeeded(-1));
    assert!(!save_succeeded(1));
    assert!(probability_supported(1));
    assert!(probability_supported(-1));
    assert!(!probability_supported(0));
}

#[test]
fn a_trained_model_keeps_frozen_parameters_and_the_problem() {
    let mut param = weighted_params();
    param.crep();
    let m = model_from_c_rep(two_class_problem(), param);
    assert!(m.keeps_params());
    let kept = m.params().unwrap();
    assert!(kept.cache.in_model());
    assert_eq!(kept.kernel_param, KernelParam::Rbf { gamma: d(0.5) });
    assert_eq!(kept.cache.arrays().unwrap().labels, vec![1, -1]);
    assert_eq!(kept.cache.arrays().unwrap().weights, vec![d(2.0), d(0.5)]);
    let prob = m.problem().unwrap();
    assert_eq!(prob.len(), 4);
    assert_eq!(prob.label(2), d(-1.0));
}

#[test]
fn a_trained_model_shows_a_free_copy_of_its_parameters() {
    let mut param = weighted_params();
    param.crep();
    let m = model_from_c_rep(two_class_problem(), param);
    let mut engine = CSvmParameter::default();
    engine.kernel_type = KernelType::Linear;
    engine.svm_type = SvmType::NuSvr;
    let mut seen = m.view_params(&engine);
    assert!(!seen.cache.in_model());
    assert_eq!(seen.kernel_param, KernelParam::Rbf { gamma: d(0.5) });
    assert_eq!(seen.svm_type_param, weighted_params().svm_type_param);
    assert!(seen.shrinking);
    assert!(!seen.probability);
    assert_eq!(seen.cache_size, d(100.0));
    assert_eq!(seen.epsilon, d(0.001));
    assert!(m.params().unwrap().cache.in_model());

    seen.svm_type_param = SvmTypeParam::CSvc {
        c: d(1.0),
        weights: vec![Weight { label: 9, weight: d(9.0) }],
    };
    let r = seen.crep();
    assert_eq!(r.weight_label, Some(vec![9]));
    assert_eq!(m.params().unwrap().cache.arrays().unwrap().labels, vec![1, -1]);
}

#[test]
fn a_loaded_model_shows_what_the_engine_holds() {
    let m = SvmModel::loaded();
    assert!(!m.keeps_params());
    assert!(m.params().is_none());
    assert!(m.problem().is_none());
    let mut engine = CSvmParameter::default();
    engine.kernel_type = KernelType::Poly;
    engine.degree = 3;
    engine.gamma = d(0.5);
    engine.coef0 = d(1.0);
    engine.svm_type = SvmType::CSvc;
    engine.c = d(4.0);
    engine.nr_weight = 2;
    engine.weight_label = Some(vec![1, 2]);
    engine.weight = Some(vec![d(3.0), d(4.0)]);
    engine.shrinking = true;
    engine.cache_size = d(50.0);
    engine.eps = d(0.01);
    let seen = m.view_params(&engine);
    assert!(!seen.cache.in_model());
    assert!(seen.cache.arrays().is_none());
    assert_eq!(seen.kernel_param, KernelParam::Poly { degree: 3, gamma: d(0.5), coef0: d(1.0) });
    assert_eq!(
        seen.svm_type_param,
        SvmTypeParam::CSvc {
            c: d(4.0),
            weights: vec![
                Weight { label: 1, weight: d(3.0) },
                Weight { label: 2, weight: d(4.0) },
            ],
        }
    );
    assert!(seen.shrinking);
    assert!(!seen.probability);
    assert_eq!(seen.cache_size, d(50.0));
    assert_eq!(seen.epsilon, d(0.01));
}

#[test]
fn a_loaded_model_with_null_arrays_has_no_class_weights() {
    let m = SvmModel::loaded();
    let mut engine = CSvmParameter::default();
    engine.nr_weight = 2;
    let seen = m.view_params(&engine);
    assert_eq!(seen.svm_type_param, SvmTypeParam::CSvc { c: d(0.0), weights: Vec::new() });
}

#[test]
fn a_problem_keeps_its_examples_in_order() {
    let prob = two_class_problem();
    assert_eq!(prob.len(), 4);
    assert_eq!(prob.label(0), d(1.0));
    assert_eq!(prob.label(3), d(-1.0));
    let v = prob.vector(1);
    assert_eq!(v.len(), 3);
    assert_eq!(v[0], SvmNode(1, d(2.0)));
    assert_eq!(v[1], SvmNode(2, d(1.5)));
    assert_eq!(v[2], SvmNode(-1, d(0.0)));
    assert_eq!(SvmProblem::new().len(), 0);
}

#[test]
fn a_problem_sorts_a_dirty_vector_before_it_takes_it() {
    let mut prob = SvmProblem::new();
    let mut v = DataVec::from_dense(vec![d(0.0), d(0.0), d(5.0)]);
    v.push(SvmNode(1, d(4.0)));
    assert!(v.needs_resort());
    assert_eq!(prob.add(d(1.0), v), Ok(()));
    let kept = prob.vector(0);
    assert!(!kept.needs_resort());
    assert_eq!(kept.len(), 3);
    assert_eq!(kept[0], SvmNode(1, d(4.0)));
    assert_eq!(kept[1], SvmNode(3, d(5.0)));
    assert_eq!(kept[2], SvmNode(-1, d(0.0)));
}

#[test]
fn a_problem_refuses_a_vector_with_an_invalid_index() {
    let mut prob = two_class_problem();
    let mut v = DataVec::from_dense(vec![d(1.0)]);
    v[0] = SvmNode(-5, d(1.0));
    assert_eq!(prob.add(d(1.0), v), Err(SvmError::InvalidIndex { position: 0, index: -5 }));
    assert_eq!(prob.len(), 4);
}

#[test]
fn the_engines_silence_lets_training_go_ahead() {
    assert_eq!(check_outcome(None), Ok(()));
}

#[test]
fn the_engines_diagnostic_is_handed_on_verbatim() {
    let said = String::from("nu <= 0 or nu > 1");
    assert_eq!(
        check_outcome(Some(said.clone())),
        Err(SvmError::InvalidParameter { detail: said })
    );
    assert_eq!(
        check_outcome(Some(String::new())),
        Err(SvmError::InvalidParameter { detail: String::new() })
    );
}
