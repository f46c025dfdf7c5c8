use secure_container::errors::SecureContainerErr;
use secure_container::mb_in_bytes;
use secure_container::validation::check_fields;
use secure_container::validation::check_input;

#[test]
fn test_mb_in_bytes() {
    let input = 10;
    let output = mb_in_bytes(input);
    assert_eq!(output, 10485760);
}

#[test]
fn size_fifteen_rejected_sixteen_accepted() {
    assert_eq!(
        check_fields(Some(15), None, None, true, true, None, None),
        Err(SecureContainerErr::SizeToSmall)
    );
    assert_eq!(
        check_fields(Some(16), None, None, true, true, None, None),
        Ok(())
    );
}

#[test]
fn namespace_and_id_character_rules() {
    // pipes and non-ASCII bytes are rejected; pure-ASCII pipe-free passes
    assert_eq!(
        check_fields(None, None, None, true, true, Some("test|"), Some("test")),
        Err(SecureContainerErr::NamespaceNotValid)
    );
    assert_eq!(
        check_fields(None, None, None, true, true, Some("not_ascii€"), Some("test")),
        Err(SecureContainerErr::NamespaceNotValid)
    );
    assert_eq!(
        check_fields(None, None, None, true, true, Some("test"), Some("test|")),
        Err(SecureContainerErr::IdNotValid)
    );
    assert_eq!(
        check_fields(None, None, None, true, true, Some("test"), Some("test€")),
        Err(SecureContainerErr::IdNotValid)
    );
    assert_eq!(
        check_fields(None, None, None, true, true, Some("test"), Some("test")),
        Ok(())
    );
}

#[test]
fn id_length_rule() {
    // 8 characters or more are rejected, up to 7 are accepted
    assert_eq!(
        check_fields(None, None, None, true, true, None, Some("testtest")),
        Err(SecureContainerErr::IdNotValid)
    );
    assert_eq!(
        check_fields(None, None, None, true, true, None, Some("testtes")),
        Ok(())
    );
}

#[test]
fn path_rules_and_precedence() {
    assert_eq!(
        check_fields(None, None, Some("contains|"), true, true, Some("test"), Some("test")),
        Err(SecureContainerErr::PathNotValid)
    );
    assert_eq!(
        check_fields(None, None, Some("not_ascii€"), true, true, Some("test"), Some("test")),
        Err(SecureContainerErr::PathNotValid)
    );
    assert_eq!(
        check_fields(None, None, Some("/data/box"), false, true, Some("test"), Some("test")),
        Err(SecureContainerErr::PathNotExists)
    );
    assert_eq!(
        check_fields(None, None, Some("/data/box"), true, false, Some("test"), Some("test")),
        Err(SecureContainerErr::PathNotLuksContainer)
    );
    // the size check wins over everything that follows it
    assert_eq!(
        check_fields(Some(15), Some(false), Some("x|"), false, false, Some("y|"), Some("z|")),
        Err(SecureContainerErr::SizeToSmall)
    );
    // the mount-point check wins over the namespace check
    assert_eq!(
        check_fields(None, Some(false), None, true, true, Some("y|"), None),
        Err(SecureContainerErr::MountPointNotExists)
    );
}

#[test]
fn check_input_probes_the_file_system() {
    // "/" always exists as a directory
    assert_eq!(
        check_input(Some(16), Some("/"), None, Some("test"), Some("test"), true),
        Ok(())
    );
    assert_eq!(
        check_input(
            Some(16),
            Some("/this_directory_should_not_exist_anywhere"),
            None,
            Some("test"),
            Some("test"),
            true
        ),
        Err(SecureContainerErr::MountPointNotExists)
    );
    // an existing file that the container probe rejected
    assert_eq!(
        check_input(None, Some("/"), Some("/etc/hostname"), Some("test"), Some("test"), false),
        Err(SecureContainerErr::PathNotLuksContainer)
    );
    assert_eq!(
        check_input(None, Some("/"), Some("/no_such_file_at_all"), Some("test"), Some("test"), true),
        Err(SecureContainerErr::PathNotExists)
    );
}
