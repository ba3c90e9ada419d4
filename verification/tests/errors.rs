use jvmti_errors::JvmtiError;
use jvmti_errors::JvmtiResult;
use jvmti_errors::JvmtiStatusCode;

fn failure_table() -> Vec<(JvmtiStatusCode, JvmtiError, u32, &'static str)> {
    vec![
        (JvmtiStatusCode::JvmtiErrorInvalidThread, JvmtiError::JvmtiErrorInvalidThread, 10, "Invalid Thread"),
        (JvmtiStatusCode::JvmtiErrorInvalidThreadGroup, JvmtiError::JvmtiErrorInvalidThreadGroup, 11, "Invalid Thread Group"),
        (JvmtiStatusCode::JvmtiErrorInvalidPriority, JvmtiError::JvmtiErrorInvalidPriority, 12, "Invalid Priority"),
        (JvmtiStatusCode::JvmtiErrorThreadNotSuspended, JvmtiError::JvmtiErrorThreadNotSuspended, 13, "Thread Not Suspended"),
        (JvmtiStatusCode::JvmtiErrorThreadSuspended, JvmtiError::JvmtiErrorThreadSuspended, 14, "Thread Suspended"),
        (JvmtiStatusCode::JvmtiErrorThreadNotAlive, JvmtiError::JvmtiErrorThreadNotAlive, 15, "Thread Not Alive"),
        (JvmtiStatusCode::JvmtiErrorInvalidObject, JvmtiError::JvmtiErrorInvalidObject, 20, "Invalid Object"),
        (JvmtiStatusCode::JvmtiErrorInvalidClass, JvmtiError::JvmtiErrorInvalidClass, 21, "Invalid Class"),
        (JvmtiStatusCode::JvmtiErrorClassNotPrepared, JvmtiError::JvmtiErrorClassNotPrepared, 22, "Class Not Prepared"),
        (JvmtiStatusCode::JvmtiErrorInvalidMethodid, JvmtiError::JvmtiErrorInvalidMethodid, 23, "Invalid Methodid"),
        (JvmtiStatusCode::JvmtiErrorInvalidLocation, JvmtiError::JvmtiErrorInvalidLocation, 24, "Invalid Location"),
        (JvmtiStatusCode::JvmtiErrorInvalidFieldid, JvmtiError::JvmtiErrorInvalidFieldid, 25, "Invalid Fieldid"),
        (JvmtiStatusCode::JvmtiErrorNoMoreFrames, JvmtiError::JvmtiErrorNoMoreFrames, 31, "No More Frames"),
        (JvmtiStatusCode::JvmtiErrorOpaqueFrame, JvmtiError::JvmtiErrorOpaqueFrame, 32, "Opaque Frame"),
        (JvmtiStatusCode::JvmtiErrorTypeMismatch, JvmtiError::JvmtiErrorTypeMismatch, 34, "Type Mismatch"),
        (JvmtiStatusCode::JvmtiErrorInvalidSlot, JvmtiError::JvmtiErrorInvalidSlot, 35, "Invalid Slot"),
        (JvmtiStatusCode::JvmtiErrorDuplicate, JvmtiError::JvmtiErrorDuplicate, 40, "Duplicate"),
        (JvmtiStatusCode::JvmtiErrorNotFound, JvmtiError::JvmtiErrorNotFound, 41, "Not Found"),
        (JvmtiStatusCode::JvmtiErrorInvalidMonitor, JvmtiError::JvmtiErrorInvalidMonitor, 50, "Invalid Monitor"),
        (JvmtiStatusCode::JvmtiErrorNotMonitorOwner, JvmtiError::JvmtiErrorNotMonitorOwner, 51, "Not Monitor Owner"),
        (JvmtiStatusCode::JvmtiErrorInterrupt, JvmtiError::JvmtiErrorInterrupt, 52, "Interrupt"),
        (JvmtiStatusCode::JvmtiErrorInvalidClassFormat, JvmtiError::JvmtiErrorInvalidClassFormat, 60, "Invalid Class Format"),
        (JvmtiStatusCode::JvmtiErrorCircularClassDefinition, JvmtiError::JvmtiErrorCircularClassDefinition, 61, "Circular Class Definition"),
        (JvmtiStatusCode::JvmtiErrorFailsVerification, JvmtiError::JvmtiErrorFailsVerification, 62, "Fails Verification"),
        (JvmtiStatusCode::JvmtiErrorUnsupportedRedefinitionMethodAdded, JvmtiError::JvmtiErrorUnsupportedRedefinitionMethodAdded, 63, "Unsupported Redefinition Method Added"),
        (JvmtiStatusCode::JvmtiErrorUnsupportedRedefinitionSchemaChanged, JvmtiError::JvmtiErrorUnsupportedRedefinitionSchemaChanged, 64, "Unsupported Redefinition Schema Changed"),
        (JvmtiStatusCode::JvmtiErrorInvalidTypestate, JvmtiError::JvmtiErrorInvalidTypestate, 65, "Invalid Typestate"),
        (JvmtiStatusCode::JvmtiErrorUnsupportedRedefinitionHierarchyChanged, JvmtiError::JvmtiErrorUnsupportedRedefinitionHierarchyChanged, 66, "Unsupported Redefinition Hierarchy Changed"),
        (JvmtiStatusCode::JvmtiErrorUnsupportedRedefinitionMethodDeleted, JvmtiError::JvmtiErrorUnsupportedRedefinitionMethodDeleted, 67, "Unsupported Redefinition Method Deleted"),
        (JvmtiStatusCode::JvmtiErrorUnsupportedVersion, JvmtiError::JvmtiErrorUnsupportedVersion, 68, "Unsupported Version"),
        (JvmtiStatusCode::JvmtiErrorNamesDontMatch, JvmtiError::JvmtiErrorNamesDontMatch, 69, "Names Dont Match"),
        (JvmtiStatusCode::JvmtiErrorUnsupportedRedefinitionClassModifiersChanged, JvmtiError::JvmtiErrorUnsupportedRedefinitionClassModifiersChanged, 70, "Unsupported Redefinition Class Modifiers Changed"),
        (JvmtiStatusCode::JvmtiErrorUnsupportedRedefinitionMethodModifiersChanged, JvmtiError::JvmtiErrorUnsupportedRedefinitionMethodModifiersChanged, 71, "Unsupported Redefinition Method Modifiers Changed"),
        (JvmtiStatusCode::JvmtiErrorUnmodifiableClass, JvmtiError::JvmtiErrorUnmodifiableClass, 79, "Unmodifiable Class"),
        (JvmtiStatusCode::JvmtiErrorNotAvailable, JvmtiError::JvmtiErrorNotAvailable, 98, "Not Available"),
        (JvmtiStatusCode::JvmtiErrorMustPossessCapability, JvmtiError::JvmtiErrorMustPossessCapability, 99, "Must Possess Capability"),
        (JvmtiStatusCode::JvmtiErrorNullPointer, JvmtiError::JvmtiErrorNullPointer, 100, "Null Pointer"),
        (JvmtiStatusCode::JvmtiErrorAbsentInformation, JvmtiError::JvmtiErrorAbsentInformation, 101, "Absent Information"),
        (JvmtiStatusCode::JvmtiErrorInvalidEventType, JvmtiError::JvmtiErrorInvalidEventType, 102, "Invalid Event Type"),
        (JvmtiStatusCode::JvmtiErrorIllegalArgument, JvmtiError::JvmtiErrorIllegalArgument, 103, "Illegal Argument"),
        (JvmtiStatusCode::JvmtiErrorNativeMethod, JvmtiError::JvmtiErrorNativeMethod, 104, "Native Method"),
        (JvmtiStatusCode::JvmtiErrorClassLoaderUnsupported, JvmtiError::JvmtiErrorClassLoaderUnsupported, 106, "Class Loader Unsupported"),
        (JvmtiStatusCode::JvmtiErrorOutOfMemory, JvmtiError::JvmtiErrorOutOfMemory, 110, "Out Of Memory"),
        (JvmtiStatusCode::JvmtiErrorAccessDenied, JvmtiError::JvmtiErrorAccessDenied, 111, "Access Denied"),
        (JvmtiStatusCode::JvmtiErrorWrongPhase, JvmtiError::JvmtiErrorWrongPhase, 112, "Wrong Phase"),
        (JvmtiStatusCode::JvmtiErrorInternal, JvmtiError::JvmtiErrorInternal, 113, "Internal"),
        (JvmtiStatusCode::JvmtiErrorUnattachedThread, JvmtiError::JvmtiErrorUnattachedThread, 115, "Unattached Thread"),
        (JvmtiStatusCode::JvmtiErrorInvalidEnvironment, JvmtiError::JvmtiErrorInvalidEnvironment, 116, "Invalid Environment"),
    ]
}

#[test]
fn translates_every_failure_code() {
    for entry in failure_table() {
        let code: JvmtiStatusCode = entry.0;
        let expected: JvmtiError = entry.1;
        let number: u32 = entry.2;
        let translated: JvmtiError = JvmtiError::from(&code);
        assert_eq!(translated, expected);
        assert_eq!(code.value(), number);
        assert_eq!(translated.code(), number);
    }
}

#[test]
fn translates_named_codes() {
    let thread: JvmtiError = JvmtiError::from(&JvmtiStatusCode::JvmtiErrorInvalidThread);
    assert_eq!(thread, JvmtiError::JvmtiErrorInvalidThread);
    assert_eq!(thread.code(), 10);
    assert_eq!(thread.description(), "Invalid Thread");
    let memory: JvmtiError = JvmtiError::from(&JvmtiStatusCode::JvmtiErrorOutOfMemory);
    assert_eq!(memory, JvmtiError::JvmtiErrorOutOfMemory);
    assert_eq!(memory.code(), 110);
    assert_eq!(memory.description(), "Out Of Memory");
    let environment: JvmtiError = JvmtiError::from(&JvmtiStatusCode::JvmtiErrorInvalidEnvironment);
    assert_eq!(environment, JvmtiError::JvmtiErrorInvalidEnvironment);
    assert_eq!(environment.code(), 116);
    assert_eq!(environment.description(), "Invalid Environment");
}

#[test]
fn discriminants_are_distinct() {
    let table: Vec<(JvmtiStatusCode, JvmtiError, u32, &'static str)> = failure_table();
    for i in 0..table.len() {
        for j in 0..table.len() {
            if i != j {
                assert_ne!(table[i].2, table[j].2);
                assert_ne!(table[i].1, table[j].1);
            }
        }
    }
}

#[test]
fn round_trip_through_code_space() {
    for entry in failure_table() {
        let code: JvmtiStatusCode = entry.0;
        let error: JvmtiError = entry.1;
        let looked_up: Option<JvmtiStatusCode> = JvmtiStatusCode::from_value(error.code());
        assert_eq!(looked_up, Some(code));
        assert_eq!(JvmtiError::from(&looked_up.unwrap()), error);
    }
}

#[test]
fn success_code_is_not_a_failure() {
    let success: JvmtiStatusCode = JvmtiStatusCode::JvmtiErrorNone;
    assert!(success.is_success());
    assert_eq!(success.value(), 0);
    assert_eq!(JvmtiStatusCode::from_value(0), Some(JvmtiStatusCode::JvmtiErrorNone));
    for entry in failure_table() {
        let code: JvmtiStatusCode = entry.0;
        assert!(!code.is_success());
        assert_ne!(code.value(), 0);
    }
}

#[test]
fn undefined_values_have_no_code() {
    let undefined: Vec<u32> = vec![1, 2, 9, 16, 30, 33, 36, 42, 53, 72, 80, 97, 105, 107, 114, 117, 200, u32::MAX];
    for value in undefined {
        assert_eq!(JvmtiStatusCode::from_value(value), None);
    }
}

#[test]
fn descriptions_are_fixed_and_nonempty() {
    for entry in failure_table() {
        let error: JvmtiError = entry.1;
        let text: &str = entry.3;
        let first: String = error.description();
        let second: String = error.description();
        assert!(!first.is_empty());
        assert_eq!(first, text);
        assert_eq!(first, second);
    }
}

#[test]
fn result_alias_carries_typed_errors() {
    let failed: JvmtiResult<u32> = Err(JvmtiError::from(&JvmtiStatusCode::JvmtiErrorWrongPhase));
    assert_eq!(failed, Err(JvmtiError::JvmtiErrorWrongPhase));
    let succeeded: JvmtiResult<u32> = Ok(7);
    assert_eq!(succeeded, Ok(7));
}
