use secure_container::errors::SecureContainerErr;
use secure_container::errors::error_to_exit_code;

#[test]
fn test_fmt() {
    let bytes = vec![0, 159];
    let value = String::from_utf8(bytes);
    let test = value.unwrap_err().to_string();
    let error_list = [
        SecureContainerErr::CryptsetupError("test".to_string()),
        SecureContainerErr::OK,
        SecureContainerErr::SizeToSmall,
        SecureContainerErr::MountPointNotExists,
        SecureContainerErr::PathNotExists,
        SecureContainerErr::NamespaceNotValid,
        SecureContainerErr::IdNotValid,
        SecureContainerErr::PathNotValid,
        SecureContainerErr::PathNotLuksContainer,
        SecureContainerErr::IsNotLuks("test".to_string()),
        SecureContainerErr::LsblkError("test".to_string()),
        SecureContainerErr::ReadingStdoutError(test),
        SecureContainerErr::UmountError("test".to_string()),
        SecureContainerErr::MountError("test".to_string()),
        SecureContainerErr::MkfsError("test".to_string()),
        SecureContainerErr::LsError("test".to_string()),
        SecureContainerErr::CryptsetupError("test".to_string()),
        SecureContainerErr::StdinError("test".to_string()),
        SecureContainerErr::FileCreationError("test".to_string()),
        SecureContainerErr::FileWriteError("test".to_string()),
        SecureContainerErr::LibutaDeriveKeyError("test".to_string()),
        SecureContainerErr::FileReadError("test".to_string()),
        SecureContainerErr::FileOpenError("test".to_string()),
        SecureContainerErr::IntegrityError,
        SecureContainerErr::ContainerMounted,
        SecureContainerErr::ContainerOpen,
        SecureContainerErr::ContainerNameExists,
        SecureContainerErr::FileExists,
        SecureContainerErr::SecertError,
        SecureContainerErr::PathNotLuksContainer,
        SecureContainerErr::PathNotValid,
    ];
    for error in error_list.iter() {
        println!("{}", error.message());
    }
}

#[test]
fn test_error_to_exitcode() {
    assert_eq!(
        error_to_exit_code("Size of container to small".to_string()),
        1
    );
    assert_eq!(error_to_exit_code("Mountpoint wrong".to_string()), 2);
    assert_eq!(error_to_exit_code("Not valid path".to_string()), 3);
    assert_eq!(error_to_exit_code("Not valid namespace".to_string()), 4);
    assert_eq!(error_to_exit_code("Not valid id".to_string()), 5);
    assert_eq!(error_to_exit_code("Lsblk error".to_string()), 6);
    assert_eq!(error_to_exit_code("Reading stdout error".to_string()), 7);
    assert_eq!(error_to_exit_code("Umount error".to_string()), 8);
    assert_eq!(error_to_exit_code("Mount error".to_string()), 9);
    assert_eq!(error_to_exit_code("Mkfs error".to_string()), 10);
    assert_eq!(error_to_exit_code("Ls error".to_string()), 11);
    assert_eq!(error_to_exit_code("Cryptsetup error".to_string()), 12);
    assert_eq!(error_to_exit_code("Stdin error".to_string()), 13);
    assert_eq!(error_to_exit_code("File creation error".to_string()), 14);
    assert_eq!(error_to_exit_code("File write error".to_string()), 15);
    assert_eq!(
        error_to_exit_code("Libuta derive key error".to_string()),
        16
    );
    assert_eq!(error_to_exit_code("File read error".to_string()), 17);
    assert_eq!(error_to_exit_code("File open error".to_string()), 18);
    assert_eq!(error_to_exit_code("Integrity error".to_string()), 19);
    assert_eq!(error_to_exit_code("Container mounted".to_string()), 20);
    assert_eq!(error_to_exit_code("Container open".to_string()), 21);
    assert_eq!(
        error_to_exit_code("Container with that name already exists".to_string()),
        22
    );
    assert_eq!(error_to_exit_code("File already exists".to_string()), 23);
    assert_eq!(error_to_exit_code("Secret not valid".to_string()), 24);
    assert_eq!(
        error_to_exit_code("Path is not a luks container".to_string()),
        25
    );
    assert_eq!(error_to_exit_code("Path not valid".to_string()), 26);
    assert_eq!(
        error_to_exit_code("Path is not a luks divice".to_string()),
        27
    );
    assert_eq!(error_to_exit_code("OK".to_string()), 0);
    assert_eq!(error_to_exit_code("Not valid".to_string()), 28);
}

#[test]
fn message_includes_payload() {
    let err = SecureContainerErr::LsblkError("boom".to_string());
    assert_eq!(err.message().as_str(), "Lsblk error: boom");
    let err = SecureContainerErr::IsNotLuks("bad".to_string());
    assert_eq!(err.message().as_str(), "Path is not a luks divice: bad");
    assert_eq!(SecureContainerErr::OK.message().as_str(), "OK");
}
