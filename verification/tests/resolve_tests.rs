use meta2env::resolve::{first_computer_name, first_instance_id, ResolveError};

#[test]
fn first_instance_id_takes_the_first_record() {
    let r = first_instance_id(vec![Some("i-0abc".to_string()), Some("i-1def".to_string())]);
    assert_eq!(r.unwrap(), "i-0abc");
}

#[test]
fn empty_container_instance_answer_is_fatal() {
    assert_eq!(
        first_instance_id(vec![]).unwrap_err(),
        ResolveError::NoContainerInstance
    );
}

#[test]
fn absent_instance_id_is_fatal() {
    assert_eq!(
        first_instance_id(vec![None]).unwrap_err(),
        ResolveError::MissingInstanceId
    );
}

#[test]
fn first_computer_name_takes_the_first_record() {
    let r = first_computer_name(vec![Some("host-1".to_string())]);
    assert_eq!(r.unwrap(), "host-1");
}

#[test]
fn empty_instance_information_answer_is_fatal() {
    assert_eq!(
        first_computer_name(vec![]).unwrap_err(),
        ResolveError::NoInstanceInformation
    );
}

#[test]
fn absent_computer_name_is_fatal() {
    assert_eq!(
        first_computer_name(vec![None]).unwrap_err(),
        ResolveError::MissingComputerName
    );
}
