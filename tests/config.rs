use bifes::{
    process_arguments, process_measure, process_size, size_in_bytes, unit_multiplier, ArgError,
    Unit, DEFAULT_THRESHOLD,
};

fn args(v: &[&str]) -> Vec<String> {
    v.iter().map(|s| s.to_string()).collect()
}

#[test]
fn no_arguments_is_an_error() {
    assert_eq!(process_arguments(&args(&[])).unwrap_err(), ArgError::MissingArguments);
}

#[test]
fn directory_alone_uses_one_mb() {
    let c = process_arguments(&args(&["/tmp/x"])).unwrap();
    assert_eq!(c.threshold, 1048576);
    assert_eq!(c.threshold, DEFAULT_THRESHOLD);
    assert_eq!(c.root, "/tmp/x");
}

#[test]
fn unit_and_threshold_default_to_current_directory() {
    let c = process_arguments(&args(&["-k", "3"])).unwrap();
    assert_eq!(c.threshold, 3072);
    assert_eq!(c.root, ".");
}

#[test]
fn unit_threshold_and_directory() {
    let c = process_arguments(&args(&["-g", "2", "data"])).unwrap();
    assert_eq!(c.threshold, 2 * 1073741824);
    assert_eq!(c.root, "data");
    let c = process_arguments(&args(&["-t", "1", "d"])).unwrap();
    assert_eq!(c.threshold, 1099511627776);
    let c = process_arguments(&args(&["-m", "0", "d"])).unwrap();
    assert_eq!(c.threshold, 0);
}

#[test]
fn unit_flag_matches_by_prefix() {
    let c = process_arguments(&args(&["-kilo", "1"])).unwrap();
    assert_eq!(c.threshold, 1024);
}

#[test]
fn invalid_unit_is_an_error() {
    assert_eq!(process_arguments(&args(&["-x", "1"])).unwrap_err(), ArgError::InvalidUnit);
    assert_eq!(process_arguments(&args(&["-K", "1"])).unwrap_err(), ArgError::InvalidUnit);
    assert_eq!(process_arguments(&args(&["-"])).unwrap_err(), ArgError::InvalidUnit);
}

#[test]
fn unit_without_threshold_is_an_error() {
    assert_eq!(process_arguments(&args(&["-m"])).unwrap_err(), ArgError::MissingThreshold);
}

#[test]
fn non_numeric_threshold_is_an_error() {
    assert_eq!(process_arguments(&args(&["-m", "ten"])).unwrap_err(), ArgError::InvalidThreshold);
    assert_eq!(process_arguments(&args(&["-m", "-1"])).unwrap_err(), ArgError::InvalidThreshold);
    assert_eq!(process_arguments(&args(&["-m", ""])).unwrap_err(), ArgError::InvalidThreshold);
}

#[test]
fn overflowing_threshold_is_an_error() {
    assert_eq!(
        process_arguments(&args(&["-t", "16777216"])).unwrap_err(),
        ArgError::ThresholdTooLarge
    );
    let c = process_arguments(&args(&["-t", "16777215"])).unwrap();
    assert_eq!(c.threshold, 16777215 * 1099511627776);
}

#[test]
fn measure_flags() {
    assert_eq!(process_measure("-k"), Some(Unit::Kilo));
    assert_eq!(process_measure("-m"), Some(Unit::Mega));
    assert_eq!(process_measure("-g"), Some(Unit::Giga));
    assert_eq!(process_measure("-t"), Some(Unit::Tera));
    assert_eq!(process_measure("-q"), None);
    assert_eq!(process_measure("k"), None);
    assert_eq!(process_measure("-"), None);
}

#[test]
fn size_parsing() {
    assert_eq!(process_size("0"), Some(0));
    assert_eq!(process_size("42"), Some(42));
    assert_eq!(process_size("+7"), Some(7));
    assert_eq!(process_size("18446744073709551615"), Some(u64::MAX));
    assert_eq!(process_size("18446744073709551616"), None);
    assert_eq!(process_size("+"), None);
    assert_eq!(process_size(" 1"), None);
    assert_eq!(process_size("1.5"), None);
}

#[test]
fn units_in_bytes() {
    assert_eq!(unit_multiplier(Unit::Kilo), 1024);
    assert_eq!(unit_multiplier(Unit::Mega), 1048576);
    assert_eq!(unit_multiplier(Unit::Giga), 1073741824);
    assert_eq!(unit_multiplier(Unit::Tera), 1099511627776);
    assert_eq!(size_in_bytes(5, Unit::Kilo), Some(5120));
    assert_eq!(size_in_bytes(u64::MAX, Unit::Kilo), None);
}
