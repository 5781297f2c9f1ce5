use recordbox::fault::{forgives, words, FaultKind, Operation};

const OPS: [Operation; 3] = [Operation::Read, Operation::Write, Operation::Delete];
const KINDS: [FaultKind; 5] = [
    FaultKind::NotFound,
    FaultKind::PermissionDenied,
    FaultKind::ReadOnlyFilesystem,
    FaultKind::OtherIo,
    FaultKind::NotIo,
];

fn told(op: Operation, kind: FaultKind) -> String {
    words(op, kind, "disk on fire".to_string())
}

#[test]
fn only_a_missing_file_to_delete_is_forgiven() {
    for op in OPS {
        for kind in KINDS {
            assert_eq!(forgives(op, kind), op == Operation::Delete && kind == FaultKind::NotFound);
        }
    }
}

#[test]
fn read_failures_in_words() {
    assert_eq!(told(Operation::Read, FaultKind::NotFound), "Not Found");
    assert_eq!(told(Operation::Read, FaultKind::PermissionDenied), "Forbidden");
    assert_eq!(told(Operation::Read, FaultKind::ReadOnlyFilesystem), "disk on fire");
    assert_eq!(told(Operation::Read, FaultKind::OtherIo), "disk on fire");
    assert_eq!(told(Operation::Read, FaultKind::NotIo), "Corrupted File");
}

#[test]
fn write_failures_in_words() {
    assert_eq!(told(Operation::Write, FaultKind::NotFound), "Not Found");
    assert_eq!(told(Operation::Write, FaultKind::PermissionDenied), "Forbidden");
    assert_eq!(told(Operation::Write, FaultKind::ReadOnlyFilesystem), "Forbidden");
    assert_eq!(told(Operation::Write, FaultKind::OtherIo), "disk on fire");
    assert_eq!(told(Operation::Write, FaultKind::NotIo), "Corrupted File");
}

#[test]
fn delete_failures_in_words() {
    assert_eq!(told(Operation::Delete, FaultKind::PermissionDenied), "Forbidden");
    assert_eq!(told(Operation::Delete, FaultKind::ReadOnlyFilesystem), "Forbidden");
    assert_eq!(told(Operation::Delete, FaultKind::OtherIo), "disk on fire");
}
