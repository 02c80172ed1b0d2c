use chemapp::datafile::{datafile_format, path_extension, DataFormat};
use chemapp::session::{target_calculation_error, Session, SolverCall, Stage};
use chemapp::ChemAppError;
use nalgebra::DVector;

fn names(list: &[&str]) -> Vec<String> {
    list.iter().map(|s| s.to_string()).collect()
}

#[test]
fn datafile_extensions() {
    assert_eq!(datafile_format("db/Al-Si-O.dat"), Ok(DataFormat::Ascii));
    assert_eq!(datafile_format("C:\\data\\SYSTEM.DAT"), Ok(DataFormat::Ascii));
    assert_eq!(datafile_format("x.Cst"), Ok(DataFormat::Transparent));
    assert_eq!(datafile_format("x.bin"), Ok(DataFormat::Binary));
}

#[test]
fn datafile_unknown_extension() {
    assert_eq!(
        datafile_format("x.txt"),
        Err(ChemAppError::FormatError("txt is not a recognized datafile extension for x.txt".to_string()))
    );
    assert!(matches!(datafile_format("x.data"), Err(ChemAppError::FormatError(_))));
}

#[test]
fn datafile_without_extension() {
    assert!(matches!(datafile_format("noext"), Err(ChemAppError::LoadError(_))));
    assert!(matches!(datafile_format(".dat"), Err(ChemAppError::LoadError(_))));
    assert!(matches!(datafile_format("dir.dat/file"), Err(ChemAppError::LoadError(_))));
    assert!(matches!(datafile_format(""), Err(ChemAppError::LoadError(_))));
}

#[test]
fn extension_of_paths() {
    assert_eq!(path_extension("a/b.c.dat"), Some("dat"));
    assert_eq!(path_extension("a.b/c"), None);
    assert_eq!(path_extension("file."), Some(""));
}

#[test]
fn new_session_is_uninitialized() {
    let s = Session::new();
    assert_eq!(s.stage(), Stage::Uninitialized);
    assert_eq!(s.number_isothermal(), 0);
    assert_eq!(s.number_target_t(), 0);
    assert!(s.transform().is_none());
}

#[test]
fn basis_needs_a_database() {
    let mut s = Session::new();
    assert_eq!(s.set_basis(names(&["SiO2"])), Err(ChemAppError::NativeError(104)));
    assert_eq!(s.stage(), Stage::Uninitialized);
}

#[test]
fn loading_gives_identity_basis() {
    let mut s = Session::new();
    assert_eq!(s.load_components(names(&["Al", "Si", "O"])), Ok(()));
    assert_eq!(s.stage(), Stage::DatabaseLoaded);
    assert_eq!(s.component_count(), 3);
    assert_eq!(s.basis(), &names(&["Al", "Si", "O"]));
    assert!(s.transform().is_some());
}

#[test]
fn basis_change_and_rejection() {
    let mut s = Session::new();
    s.load_components(names(&["Al", "Si", "O"])).unwrap();
    assert_eq!(s.set_basis(names(&["SiO2", "Al2O3", "O"])), Ok(()));
    assert_eq!(s.stage(), Stage::BasisSet);
    assert_eq!(s.basis(), &names(&["SiO2", "Al2O3", "O"]));
    assert!(matches!(s.set_basis(names(&["SiO2", "Qq7"])), Err(ChemAppError::FormatError(_))));
    assert_eq!(s.basis(), &names(&["SiO2", "Al2O3", "O"]));
    assert_eq!(s.stage(), Stage::BasisSet);
}

#[test]
fn unparsable_component_is_rejected() {
    let mut s = Session::new();
    assert!(matches!(s.load_components(names(&["Al", "??"])), Err(ChemAppError::FormatError(_))));
    assert_eq!(s.stage(), Stage::Uninitialized);
}

#[test]
fn isothermal_plan_order() {
    let mut s = Session::new();
    s.load_components(names(&["Si", "O"])).unwrap();
    assert_eq!(
        s.isothermal_plan(),
        vec![
            SolverCall::ClearConditions,
            SolverCall::FixTemperature,
            SolverCall::FixComponentAmount(1),
            SolverCall::FixComponentAmount(2),
            SolverCall::Equilibrate,
        ]
    );
}

#[test]
fn target_plan_order() {
    let mut s = Session::new();
    s.load_components(names(&["Si", "O"])).unwrap();
    assert_eq!(
        s.target_plan(7),
        vec![
            SolverCall::ClearConditions,
            SolverCall::FixComponentAmount(1),
            SolverCall::FixComponentAmount(2),
            SolverCall::TargetPhase(7),
            SolverCall::SetBracket,
            SolverCall::EquilibrateTarget,
        ]
    );
}

#[test]
fn counters_and_stages() {
    let mut s = Session::new();
    s.load_components(names(&["Si", "O"])).unwrap();
    s.record_isothermal();
    s.record_isothermal();
    s.record_target();
    assert_eq!(s.number_isothermal(), 2);
    assert_eq!(s.number_target_t(), 1);
    assert!(s.is_equilibrated());
    s.record_failure();
    assert_eq!(s.stage(), Stage::BasisSet);
    assert_eq!(s.number_isothermal(), 2);
}

#[test]
fn basis_round_trip() {
    let mut s = Session::new();
    s.load_components(names(&["Si", "O"])).unwrap();
    s.set_basis(names(&["SiO2", "O"])).unwrap();
    let t = s.transform().unwrap();
    let x = DVector::from_vec(vec![0.1, 0.9]);
    let internal = t.transform_final2init(&x, false, false, false);
    assert!((internal[(0, 0)] - 0.1).abs() < 1e-12);
    assert!((internal[(1, 0)] - 1.1).abs() < 1e-12);
    let back = t.transform_init2final(&internal, false, false, false);
    assert!((back[(0, 0)] - 0.1).abs() < 1e-9);
    assert!((back[(1, 0)] - 0.9).abs() < 1e-9);
}

#[test]
fn composition_is_renormalized() {
    let mut s = Session::new();
    s.load_components(names(&["Si", "O"])).unwrap();
    s.set_basis(names(&["Si", "O"])).unwrap();
    let t = s.transform().unwrap();
    let raw = DVector::from_vec(vec![0.3, 0.9]);
    let x = t.transform_init2final(&raw, false, false, true);
    assert_eq!(x.len(), 2);
    assert!((x.sum() - 1.0).abs() < 1e-9);
}

#[test]
fn target_error_mapping() {
    let e = target_calculation_error(ChemAppError::NativeError(711));
    assert_eq!(
        e,
        ChemAppError::ConvergenceError(
            "ChemApp error 711, Target calculation aborted; no solution is found within the permitted interval".to_string()
        )
    );
    assert_eq!(target_calculation_error(ChemAppError::NativeError(710)), ChemAppError::NativeError(710));
    assert_eq!(
        target_calculation_error(ChemAppError::LoadError("x".to_string())),
        ChemAppError::LoadError("x".to_string())
    );
}

#[test]
fn two_component_identity_session() {
    let mut s = Session::new();
    s.load_components(names(&["Si", "O"])).unwrap();
    s.set_basis(names(&["Si", "O"])).unwrap();
    let t = s.transform().unwrap();
    let x = DVector::from_vec(vec![0.1, 0.9]);
    let internal = t.transform_final2init(&x, false, false, false);
    assert!((internal[(0, 0)] - 0.1).abs() < 1e-12);
    assert!((internal[(1, 0)] - 0.9).abs() < 1e-12);
    let raw = DVector::from_vec(vec![0.25, 0.5]);
    let phase = t.transform_init2final(&raw, false, false, true);
    assert_eq!(phase.len(), 2);
    assert!((phase.sum() - 1.0).abs() < 1e-9);
    assert_eq!(s.isothermal_plan().len(), 5);
    s.record_isothermal();
    assert!(s.is_equilibrated());
}
