use vstd::prelude::*;

verus! {

/// A raw status code of the JVM tool interface: the success sentinel
/// together with every failure code the interface defines. The numeric
/// value of each code is given by [`JvmtiStatusCode::value_spec`].
#[derive(Clone, Copy, Debug, PartialEq, Eq, Structural)]
pub enum JvmtiStatusCode {
    JvmtiErrorNone,
    JvmtiErrorInvalidThread,
    JvmtiErrorInvalidThreadGroup,
    JvmtiErrorInvalidPriority,
    JvmtiErrorThreadNotSuspended,
    JvmtiErrorThreadSuspended,
    JvmtiErrorThreadNotAlive,
    JvmtiErrorInvalidObject,
    JvmtiErrorInvalidClass,
    JvmtiErrorClassNotPrepared,
    JvmtiErrorInvalidMethodid,
    JvmtiErrorInvalidLocation,
    JvmtiErrorInvalidFieldid,
    JvmtiErrorNoMoreFrames,
    JvmtiErrorOpaqueFrame,
    JvmtiErrorTypeMismatch,
    JvmtiErrorInvalidSlot,
    JvmtiErrorDuplicate,
    JvmtiErrorNotFound,
    JvmtiErrorInvalidMonitor,
    JvmtiErrorNotMonitorOwner,
    JvmtiErrorInterrupt,
    JvmtiErrorInvalidClassFormat,
    JvmtiErrorCircularClassDefinition,
    JvmtiErrorFailsVerification,
    JvmtiErrorUnsupportedRedefinitionMethodAdded,
    JvmtiErrorUnsupportedRedefinitionSchemaChanged,
    JvmtiErrorInvalidTypestate,
    JvmtiErrorUnsupportedRedefinitionHierarchyChanged,
    JvmtiErrorUnsupportedRedefinitionMethodDeleted,
    JvmtiErrorUnsupportedVersion,
    JvmtiErrorNamesDontMatch,
    JvmtiErrorUnsupportedRedefinitionClassModifiersChanged,
    JvmtiErrorUnsupportedRedefinitionMethodModifiersChanged,
    JvmtiErrorUnmodifiableClass,
    JvmtiErrorNotAvailable,
    JvmtiErrorMustPossessCapability,
    JvmtiErrorNullPointer,
    JvmtiErrorAbsentInformation,
    JvmtiErrorInvalidEventType,
    JvmtiErrorIllegalArgument,
    JvmtiErrorNativeMethod,
    JvmtiErrorClassLoaderUnsupported,
    JvmtiErrorOutOfMemory,
    JvmtiErrorAccessDenied,
    JvmtiErrorWrongPhase,
    JvmtiErrorInternal,
    JvmtiErrorUnattachedThread,
    JvmtiErrorInvalidEnvironment,
}

/// A failure reported by the JVM tool interface: one variant per
/// non-success status code, each with a stable numeric discriminant
/// ([`JvmtiError::code_spec`]) equal to the native code's value, and a
/// fixed human-readable description.
#[derive(Clone, Copy, Debug, PartialEq, Eq, Structural)]
pub enum JvmtiError {
    JvmtiErrorInvalidThread,
    JvmtiErrorInvalidThreadGroup,
    JvmtiErrorInvalidPriority,
    JvmtiErrorThreadNotSuspended,
    JvmtiErrorThreadSuspended,
    JvmtiErrorThreadNotAlive,
    JvmtiErrorInvalidObject,
    JvmtiErrorInvalidClass,
    JvmtiErrorClassNotPrepared,
    JvmtiErrorInvalidMethodid,
    JvmtiErrorInvalidLocation,
    JvmtiErrorInvalidFieldid,
    JvmtiErrorNoMoreFrames,
    JvmtiErrorOpaqueFrame,
    JvmtiErrorTypeMismatch,
    JvmtiErrorInvalidSlot,
    JvmtiErrorDuplicate,
    JvmtiErrorNotFound,
    JvmtiErrorInvalidMonitor,
    JvmtiErrorNotMonitorOwner,
    JvmtiErrorInterrupt,
    JvmtiErrorInvalidClassFormat,
    JvmtiErrorCircularClassDefinition,
    JvmtiErrorFailsVerification,
    JvmtiErrorUnsupportedRedefinitionMethodAdded,
    JvmtiErrorUnsupportedRedefinitionSchemaChanged,
    JvmtiErrorInvalidTypestate,
    JvmtiErrorUnsupportedRedefinitionHierarchyChanged,
    JvmtiErrorUnsupportedRedefinitionMethodDeleted,
    JvmtiErrorUnsupportedVersion,
    JvmtiErrorNamesDontMatch,
    JvmtiErrorUnsupportedRedefinitionClassModifiersChanged,
    JvmtiErrorUnsupportedRedefinitionMethodModifiersChanged,
    JvmtiErrorUnmodifiableClass,
    JvmtiErrorNotAvailable,
    JvmtiErrorMustPossessCapability,
    JvmtiErrorNullPointer,
    JvmtiErrorAbsentInformation,
    JvmtiErrorInvalidEventType,
    JvmtiErrorIllegalArgument,
    JvmtiErrorNativeMethod,
    JvmtiErrorClassLoaderUnsupported,
    JvmtiErrorOutOfMemory,
    JvmtiErrorAccessDenied,
    JvmtiErrorWrongPhase,
    JvmtiErrorInternal,
    JvmtiErrorUnattachedThread,
    JvmtiErrorInvalidEnvironment,
}

/// Every fallible operation against the tool interface returns either a
/// success payload or a typed error.
pub type JvmtiResult<T> = Result<T, JvmtiError>;

impl JvmtiStatusCode {
    /// The integer value the native interface assigns to this code; the
    /// success sentinel alone is zero.
    pub open spec fn value_spec(self) -> u32 {
        match self {
            JvmtiStatusCode::JvmtiErrorNone => 0,
            JvmtiStatusCode::JvmtiErrorInvalidThread => 10,
            JvmtiStatusCode::JvmtiErrorInvalidThreadGroup => 11,
            JvmtiStatusCode::JvmtiErrorInvalidPriority => 12,
            JvmtiStatusCode::JvmtiErrorThreadNotSuspended => 13,
            JvmtiStatusCode::JvmtiErrorThreadSuspended => 14,
            JvmtiStatusCode::JvmtiErrorThreadNotAlive => 15,
            JvmtiStatusCode::JvmtiErrorInvalidObject => 20,
            JvmtiStatusCode::JvmtiErrorInvalidClass => 21,
            JvmtiStatusCode::JvmtiErrorClassNotPrepared => 22,
            JvmtiStatusCode::JvmtiErrorInvalidMethodid => 23,
            JvmtiStatusCode::JvmtiErrorInvalidLocation => 24,
            JvmtiStatusCode::JvmtiErrorInvalidFieldid => 25,
            JvmtiStatusCode::JvmtiErrorNoMoreFrames => 31,
            JvmtiStatusCode::JvmtiErrorOpaqueFrame => 32,
            JvmtiStatusCode::JvmtiErrorTypeMismatch => 34,
            JvmtiStatusCode::JvmtiErrorInvalidSlot => 35,
            JvmtiStatusCode::JvmtiErrorDuplicate => 40,
            JvmtiStatusCode::JvmtiErrorNotFound => 41,
            JvmtiStatusCode::JvmtiErrorInvalidMonitor => 50,
            JvmtiStatusCode::JvmtiErrorNotMonitorOwner => 51,
            JvmtiStatusCode::JvmtiErrorInterrupt => 52,
            JvmtiStatusCode::JvmtiErrorInvalidClassFormat => 60,
            JvmtiStatusCode::JvmtiErrorCircularClassDefinition => 61,
            JvmtiStatusCode::JvmtiErrorFailsVerification => 62,
            JvmtiStatusCode::JvmtiErrorUnsupportedRedefinitionMethodAdded => 63,
            JvmtiStatusCode::JvmtiErrorUnsupportedRedefinitionSchemaChanged => 64,
            JvmtiStatusCode::JvmtiErrorInvalidTypestate => 65,
            JvmtiStatusCode::JvmtiErrorUnsupportedRedefinitionHierarchyChanged => 66,
            JvmtiStatusCode::JvmtiErrorUnsupportedRedefinitionMethodDeleted => 67,
            JvmtiStatusCode::JvmtiErrorUnsupportedVersion => 68,
            JvmtiStatusCode::JvmtiErrorNamesDontMatch => 69,
            JvmtiStatusCode::JvmtiErrorUnsupportedRedefinitionClassModifiersChanged => 70,
            JvmtiStatusCode::JvmtiErrorUnsupportedRedefinitionMethodModifiersChanged => 71,
            JvmtiStatusCode::JvmtiErrorUnmodifiableClass => 79,
            JvmtiStatusCode::JvmtiErrorNotAvailable => 98,
            JvmtiStatusCode::JvmtiErrorMustPossessCapability => 99,
            JvmtiStatusCode::JvmtiErrorNullPointer => 100,
            JvmtiStatusCode::JvmtiErrorAbsentInformation => 101,
            JvmtiStatusCode::JvmtiErrorInvalidEventType => 102,
            JvmtiStatusCode::JvmtiErrorIllegalArgument => 103,
            JvmtiStatusCode::JvmtiErrorNativeMethod => 104,
            JvmtiStatusCode::JvmtiErrorClassLoaderUnsupported => 106,
            JvmtiStatusCode::JvmtiErrorOutOfMemory => 110,
            JvmtiStatusCode::JvmtiErrorAccessDenied => 111,
            JvmtiStatusCode::JvmtiErrorWrongPhase => 112,
            JvmtiStatusCode::JvmtiErrorInternal => 113,
            JvmtiStatusCode::JvmtiErrorUnattachedThread => 115,
            JvmtiStatusCode::JvmtiErrorInvalidEnvironment => 116,
        }
    }

    /// True of the success sentinel alone.
    pub open spec fn is_success_spec(self) -> bool {
        self is JvmtiErrorNone
    }

    /// The status code that carries a given integer value, if the native
    /// interface defines one.
    pub open spec fn from_value_spec(n: u32) -> Option<JvmtiStatusCode> {
        if n == 0 {
            Some(JvmtiStatusCode::JvmtiErrorNone)
        } else if n == 10 {
            Some(JvmtiStatusCode::JvmtiErrorInvalidThread)
        } else if n == 11 {
            Some(JvmtiStatusCode::JvmtiErrorInvalidThreadGroup)
        } else if n == 12 {
            Some(JvmtiStatusCode::JvmtiErrorInvalidPriority)
        } else if n == 13 {
            Some(JvmtiStatusCode::JvmtiErrorThreadNotSuspended)
        } else if n == 14 {
            Some(JvmtiStatusCode::JvmtiErrorThreadSuspended)
        } else if n == 15 {
            Some(JvmtiStatusCode::JvmtiErrorThreadNotAlive)
        } else if n == 20 {
            Some(JvmtiStatusCode::JvmtiErrorInvalidObject)
        } else if n == 21 {
            Some(JvmtiStatusCode::JvmtiErrorInvalidClass)
        } else if n == 22 {
            Some(JvmtiStatusCode::JvmtiErrorClassNotPrepared)
        } else if n == 23 {
            Some(JvmtiStatusCode::JvmtiErrorInvalidMethodid)
        } else if n == 24 {
            Some(JvmtiStatusCode::JvmtiErrorInvalidLocation)
        } else if n == 25 {
            Some(JvmtiStatusCode::JvmtiErrorInvalidFieldid)
        } else if n == 31 {
            Some(JvmtiStatusCode::JvmtiErrorNoMoreFrames)
        } else if n == 32 {
            Some(JvmtiStatusCode::JvmtiErrorOpaqueFrame)
        } else if n == 34 {
            Some(JvmtiStatusCode::JvmtiErrorTypeMismatch)
        } else if n == 35 {
            Some(JvmtiStatusCode::JvmtiErrorInvalidSlot)
        } else if n == 40 {
            Some(JvmtiStatusCode::JvmtiErrorDuplicate)
        } else if n == 41 {
            Some(JvmtiStatusCode::JvmtiErrorNotFound)
        } else if n == 50 {
            Some(JvmtiStatusCode::JvmtiErrorInvalidMonitor)
        } else if n == 51 {
            Some(JvmtiStatusCode::JvmtiErrorNotMonitorOwner)
        } else if n == 52 {
            Some(JvmtiStatusCode::JvmtiErrorInterrupt)
        } else if n == 60 {
            Some(JvmtiStatusCode::JvmtiErrorInvalidClassFormat)
        } else if n == 61 {
            Some(JvmtiStatusCode::JvmtiErrorCircularClassDefinition)
        } else if n == 62 {
            Some(JvmtiStatusCode::JvmtiErrorFailsVerification)
        } else if n == 63 {
            Some(JvmtiStatusCode::JvmtiErrorUnsupportedRedefinitionMethodAdded)
        } else if n == 64 {
            Some(JvmtiStatusCode::JvmtiErrorUnsupportedRedefinitionSchemaChanged)
        } else if n == 65 {
            Some(JvmtiStatusCode::JvmtiErrorInvalidTypestate)
        } else if n == 66 {
            Some(JvmtiStatusCode::JvmtiErrorUnsupportedRedefinitionHierarchyChanged)
        } else if n == 67 {
            Some(JvmtiStatusCode::JvmtiErrorUnsupportedRedefinitionMethodDeleted)
        } else if n == 68 {
            Some(JvmtiStatusCode::JvmtiErrorUnsupportedVersion)
        } else if n == 69 {
            Some(JvmtiStatusCode::JvmtiErrorNamesDontMatch)
        } else if n == 70 {
            Some(JvmtiStatusCode::JvmtiErrorUnsupportedRedefinitionClassModifiersChanged)
        } else if n == 71 {
            Some(JvmtiStatusCode::JvmtiErrorUnsupportedRedefinitionMethodModifiersChanged)
        } else if n == 79 {
            Some(JvmtiStatusCode::JvmtiErrorUnmodifiableClass)
        } else if n == 98 {
            Some(JvmtiStatusCode::JvmtiErrorNotAvailable)
        } else if n == 99 {
            Some(JvmtiStatusCode::JvmtiErrorMustPossessCapability)
        } else if n == 100 {
            Some(JvmtiStatusCode::JvmtiErrorNullPointer)
        } else if n == 101 {
            Some(JvmtiStatusCode::JvmtiErrorAbsentInformation)
        } else if n == 102 {
            Some(JvmtiStatusCode::JvmtiErrorInvalidEventType)
        } else if n == 103 {
            Some(JvmtiStatusCode::JvmtiErrorIllegalArgument)
        } else if n == 104 {
            Some(JvmtiStatusCode::JvmtiErrorNativeMethod)
        } else if n == 106 {
            Some(JvmtiStatusCode::JvmtiErrorClassLoaderUnsupported)
        } else if n == 110 {
            Some(JvmtiStatusCode::JvmtiErrorOutOfMemory)
        } else if n == 111 {
            Some(JvmtiStatusCode::JvmtiErrorAccessDenied)
        } else if n == 112 {
            Some(JvmtiStatusCode::JvmtiErrorWrongPhase)
        } else if n == 113 {
            Some(JvmtiStatusCode::JvmtiErrorInternal)
        } else if n == 115 {
            Some(JvmtiStatusCode::JvmtiErrorUnattachedThread)
        } else if n == 116 {
            Some(JvmtiStatusCode::JvmtiErrorInvalidEnvironment)
        } else {
            None
        }
    }

    pub fn value(&self) -> (n: u32)
        ensures
            n == self.value_spec(),
    {
        match *self {
            JvmtiStatusCode::JvmtiErrorNone => 0,
            JvmtiStatusCode::JvmtiErrorInvalidThread => 10,
            JvmtiStatusCode::JvmtiErrorInvalidThreadGroup => 11,
            JvmtiStatusCode::JvmtiErrorInvalidPriority => 12,
            JvmtiStatusCode::JvmtiErrorThreadNotSuspended => 13,
            JvmtiStatusCode::JvmtiErrorThreadSuspended => 14,
            JvmtiStatusCode::JvmtiErrorThreadNotAlive => 15,
            JvmtiStatusCode::JvmtiErrorInvalidObject => 20,
            JvmtiStatusCode::JvmtiErrorInvalidClass => 21,
            JvmtiStatusCode::JvmtiErrorClassNotPrepared => 22,
            JvmtiStatusCode::JvmtiErrorInvalidMethodid => 23,
            JvmtiStatusCode::JvmtiErrorInvalidLocation => 24,
            JvmtiStatusCode::JvmtiErrorInvalidFieldid => 25,
            JvmtiStatusCode::JvmtiErrorNoMoreFrames => 31,
            JvmtiStatusCode::JvmtiErrorOpaqueFrame => 32,
            JvmtiStatusCode::JvmtiErrorTypeMismatch => 34,
            JvmtiStatusCode::JvmtiErrorInvalidSlot => 35,
            JvmtiStatusCode::JvmtiErrorDuplicate => 40,
            JvmtiStatusCode::JvmtiErrorNotFound => 41,
            JvmtiStatusCode::JvmtiErrorInvalidMonitor => 50,
            JvmtiStatusCode::JvmtiErrorNotMonitorOwner => 51,
            JvmtiStatusCode::JvmtiErrorInterrupt => 52,
            JvmtiStatusCode::JvmtiErrorInvalidClassFormat => 60,
            JvmtiStatusCode::JvmtiErrorCircularClassDefinition => 61,
            JvmtiStatusCode::JvmtiErrorFailsVerification => 62,
            JvmtiStatusCode::JvmtiErrorUnsupportedRedefinitionMethodAdded => 63,
            JvmtiStatusCode::JvmtiErrorUnsupportedRedefinitionSchemaChanged => 64,
            JvmtiStatusCode::JvmtiErrorInvalidTypestate => 65,
            JvmtiStatusCode::JvmtiErrorUnsupportedRedefinitionHierarchyChanged => 66,
            JvmtiStatusCode::JvmtiErrorUnsupportedRedefinitionMethodDeleted => 67,
            JvmtiStatusCode::JvmtiErrorUnsupportedVersion => 68,
            JvmtiStatusCode::JvmtiErrorNamesDontMatch => 69,
            JvmtiStatusCode::JvmtiErrorUnsupportedRedefinitionClassModifiersChanged => 70,
            JvmtiStatusCode::JvmtiErrorUnsupportedRedefinitionMethodModifiersChanged => 71,
            JvmtiStatusCode::JvmtiErrorUnmodifiableClass => 79,
            JvmtiStatusCode::JvmtiErrorNotAvailable => 98,
            JvmtiStatusCode::JvmtiErrorMustPossessCapability => 99,
            JvmtiStatusCode::JvmtiErrorNullPointer => 100,
            JvmtiStatusCode::JvmtiErrorAbsentInformation => 101,
            JvmtiStatusCode::JvmtiErrorInvalidEventType => 102,
            JvmtiStatusCode::JvmtiErrorIllegalArgument => 103,
            JvmtiStatusCode::JvmtiErrorNativeMethod => 104,
            JvmtiStatusCode::JvmtiErrorClassLoaderUnsupported => 106,
            JvmtiStatusCode::JvmtiErrorOutOfMemory => 110,
            JvmtiStatusCode::JvmtiErrorAccessDenied => 111,
            JvmtiStatusCode::JvmtiErrorWrongPhase => 112,
            JvmtiStatusCode::JvmtiErrorInternal => 113,
            JvmtiStatusCode::JvmtiErrorUnattachedThread => 115,
            JvmtiStatusCode::JvmtiErrorInvalidEnvironment => 116,
        }
    }

    pub fn is_success(&self) -> (b: bool)
        ensures
            b == self.is_success_spec(),
    {
        match *self {
            JvmtiStatusCode::JvmtiErrorNone => true,
            _ => false,
        }
    }

    pub fn from_value(n: u32) -> (r: Option<JvmtiStatusCode>)
        ensures
            r == Self::from_value_spec(n),
    {
        match n {
            0u32 => Some(JvmtiStatusCode::JvmtiErrorNone),
            10u32 => Some(JvmtiStatusCode::JvmtiErrorInvalidThread),
            11u32 => Some(JvmtiStatusCode::JvmtiErrorInvalidThreadGroup),
            12u32 => Some(JvmtiStatusCode::JvmtiErrorInvalidPriority),
            13u32 => Some(JvmtiStatusCode::JvmtiErrorThreadNotSuspended),
            14u32 => Some(JvmtiStatusCode::JvmtiErrorThreadSuspended),
            15u32 => Some(JvmtiStatusCode::JvmtiErrorThreadNotAlive),
            20u32 => Some(JvmtiStatusCode::JvmtiErrorInvalidObject),
            21u32 => Some(JvmtiStatusCode::JvmtiErrorInvalidClass),
            22u32 => Some(JvmtiStatusCode::JvmtiErrorClassNotPrepared),
            23u32 => Some(JvmtiStatusCode::JvmtiErrorInvalidMethodid),
            24u32 => Some(JvmtiStatusCode::JvmtiErrorInvalidLocation),
            25u32 => Some(JvmtiStatusCode::JvmtiErrorInvalidFieldid),
            31u32 => Some(JvmtiStatusCode::JvmtiErrorNoMoreFrames),
            32u32 => Some(JvmtiStatusCode::JvmtiErrorOpaqueFrame),
            34u32 => Some(JvmtiStatusCode::JvmtiErrorTypeMismatch),
            35u32 => Some(JvmtiStatusCode::JvmtiErrorInvalidSlot),
            40u32 => Some(JvmtiStatusCode::JvmtiErrorDuplicate),
            41u32 => Some(JvmtiStatusCode::JvmtiErrorNotFound),
            50u32 => Some(JvmtiStatusCode::JvmtiErrorInvalidMonitor),
            51u32 => Some(JvmtiStatusCode::JvmtiErrorNotMonitorOwner),
            52u32 => Some(JvmtiStatusCode::JvmtiErrorInterrupt),
            60u32 => Some(JvmtiStatusCode::JvmtiErrorInvalidClassFormat),
            61u32 => Some(JvmtiStatusCode::JvmtiErrorCircularClassDefinition),
            62u32 => Some(JvmtiStatusCode::JvmtiErrorFailsVerification),
            63u32 => Some(JvmtiStatusCode::JvmtiErrorUnsupportedRedefinitionMethodAdded),
            64u32 => Some(JvmtiStatusCode::JvmtiErrorUnsupportedRedefinitionSchemaChanged),
            65u32 => Some(JvmtiStatusCode::JvmtiErrorInvalidTypestate),
            66u32 => Some(JvmtiStatusCode::JvmtiErrorUnsupportedRedefinitionHierarchyChanged),
            67u32 => Some(JvmtiStatusCode::JvmtiErrorUnsupportedRedefinitionMethodDeleted),
            68u32 => Some(JvmtiStatusCode::JvmtiErrorUnsupportedVersion),
            69u32 => Some(JvmtiStatusCode::JvmtiErrorNamesDontMatch),
            70u32 => Some(JvmtiStatusCode::JvmtiErrorUnsupportedRedefinitionClassModifiersChanged),
            71u32 => Some(JvmtiStatusCode::JvmtiErrorUnsupportedRedefinitionMethodModifiersChanged),
            79u32 => Some(JvmtiStatusCode::JvmtiErrorUnmodifiableClass),
            98u32 => Some(JvmtiStatusCode::JvmtiErrorNotAvailable),
            99u32 => Some(JvmtiStatusCode::JvmtiErrorMustPossessCapability),
            100u32 => Some(JvmtiStatusCode::JvmtiErrorNullPointer),
            101u32 => Some(JvmtiStatusCode::JvmtiErrorAbsentInformation),
            102u32 => Some(JvmtiStatusCode::JvmtiErrorInvalidEventType),
            103u32 => Some(JvmtiStatusCode::JvmtiErrorIllegalArgument),
            104u32 => Some(JvmtiStatusCode::JvmtiErrorNativeMethod),
            106u32 => Some(JvmtiStatusCode::JvmtiErrorClassLoaderUnsupported),
            110u32 => Some(JvmtiStatusCode::JvmtiErrorOutOfMemory),
            111u32 => Some(JvmtiStatusCode::JvmtiErrorAccessDenied),
            112u32 => Some(JvmtiStatusCode::JvmtiErrorWrongPhase),
            113u32 => Some(JvmtiStatusCode::JvmtiErrorInternal),
            115u32 => Some(JvmtiStatusCode::JvmtiErrorUnattachedThread),
            116u32 => Some(JvmtiStatusCode::JvmtiErrorInvalidEnvironment),
            _ => None,
        }
    }
}

/// The typed error that each failure code translates to; the success
/// sentinel alone has none, since it carries no error information.
pub open spec fn translate_spec(code: JvmtiStatusCode) -> Option<JvmtiError> {
    match code {
        JvmtiStatusCode::JvmtiErrorNone => None,
        JvmtiStatusCode::JvmtiErrorInvalidThread => Some(JvmtiError::JvmtiErrorInvalidThread),
        JvmtiStatusCode::JvmtiErrorInvalidThreadGroup => Some(JvmtiError::JvmtiErrorInvalidThreadGroup),
        JvmtiStatusCode::JvmtiErrorInvalidPriority => Some(JvmtiError::JvmtiErrorInvalidPriority),
        JvmtiStatusCode::JvmtiErrorThreadNotSuspended => Some(JvmtiError::JvmtiErrorThreadNotSuspended),
        JvmtiStatusCode::JvmtiErrorThreadSuspended => Some(JvmtiError::JvmtiErrorThreadSuspended),
        JvmtiStatusCode::JvmtiErrorThreadNotAlive => Some(JvmtiError::JvmtiErrorThreadNotAlive),
        JvmtiStatusCode::JvmtiErrorInvalidObject => Some(JvmtiError::JvmtiErrorInvalidObject),
        JvmtiStatusCode::JvmtiErrorInvalidClass => Some(JvmtiError::JvmtiErrorInvalidClass),
        JvmtiStatusCode::JvmtiErrorClassNotPrepared => Some(JvmtiError::JvmtiErrorClassNotPrepared),
        JvmtiStatusCode::JvmtiErrorInvalidMethodid => Some(JvmtiError::JvmtiErrorInvalidMethodid),
        JvmtiStatusCode::JvmtiErrorInvalidLocation => Some(JvmtiError::JvmtiErrorInvalidLocation),
        JvmtiStatusCode::JvmtiErrorInvalidFieldid => Some(JvmtiError::JvmtiErrorInvalidFieldid),
        JvmtiStatusCode::JvmtiErrorNoMoreFrames => Some(JvmtiError::JvmtiErrorNoMoreFrames),
        JvmtiStatusCode::JvmtiErrorOpaqueFrame => Some(JvmtiError::JvmtiErrorOpaqueFrame),
        JvmtiStatusCode::JvmtiErrorTypeMismatch => Some(JvmtiError::JvmtiErrorTypeMismatch),
        JvmtiStatusCode::JvmtiErrorInvalidSlot => Some(JvmtiError::JvmtiErrorInvalidSlot),
        JvmtiStatusCode::JvmtiErrorDuplicate => Some(JvmtiError::JvmtiErrorDuplicate),
        JvmtiStatusCode::JvmtiErrorNotFound => Some(JvmtiError::JvmtiErrorNotFound),
        JvmtiStatusCode::JvmtiErrorInvalidMonitor => Some(JvmtiError::JvmtiErrorInvalidMonitor),
        JvmtiStatusCode::JvmtiErrorNotMonitorOwner => Some(JvmtiError::JvmtiErrorNotMonitorOwner),
        JvmtiStatusCode::JvmtiErrorInterrupt => Some(JvmtiError::JvmtiErrorInterrupt),
        JvmtiStatusCode::JvmtiErrorInvalidClassFormat => Some(JvmtiError::JvmtiErrorInvalidClassFormat),
        JvmtiStatusCode::JvmtiErrorCircularClassDefinition => Some(JvmtiError::JvmtiErrorCircularClassDefinition),
        JvmtiStatusCode::JvmtiErrorFailsVerification => Some(JvmtiError::JvmtiErrorFailsVerification),
        JvmtiStatusCode::JvmtiErrorUnsupportedRedefinitionMethodAdded => Some(JvmtiError::JvmtiErrorUnsupportedRedefinitionMethodAdded),
        JvmtiStatusCode::JvmtiErrorUnsupportedRedefinitionSchemaChanged => Some(JvmtiError::JvmtiErrorUnsupportedRedefinitionSchemaChanged),
        JvmtiStatusCode::JvmtiErrorInvalidTypestate => Some(JvmtiError::JvmtiErrorInvalidTypestate),
        JvmtiStatusCode::JvmtiErrorUnsupportedRedefinitionHierarchyChanged => Some(JvmtiError::JvmtiErrorUnsupportedRedefinitionHierarchyChanged),
        JvmtiStatusCode::JvmtiErrorUnsupportedRedefinitionMethodDeleted => Some(JvmtiError::JvmtiErrorUnsupportedRedefinitionMethodDeleted),
        JvmtiStatusCode::JvmtiErrorUnsupportedVersion => Some(JvmtiError::JvmtiErrorUnsupportedVersion),
        JvmtiStatusCode::JvmtiErrorNamesDontMatch => Some(JvmtiError::JvmtiErrorNamesDontMatch),
        JvmtiStatusCode::JvmtiErrorUnsupportedRedefinitionClassModifiersChanged => Some(JvmtiError::JvmtiErrorUnsupportedRedefinitionClassModifiersChanged),
        JvmtiStatusCode::JvmtiErrorUnsupportedRedefinitionMethodModifiersChanged => Some(JvmtiError::JvmtiErrorUnsupportedRedefinitionMethodModifiersChanged),
        JvmtiStatusCode::JvmtiErrorUnmodifiableClass => Some(JvmtiError::JvmtiErrorUnmodifiableClass),
        JvmtiStatusCode::JvmtiErrorNotAvailable => Some(JvmtiError::JvmtiErrorNotAvailable),
        JvmtiStatusCode::JvmtiErrorMustPossessCapability => Some(JvmtiError::JvmtiErrorMustPossessCapability),
        JvmtiStatusCode::JvmtiErrorNullPointer => Some(JvmtiError::JvmtiErrorNullPointer),
        JvmtiStatusCode::JvmtiErrorAbsentInformation => Some(JvmtiError::JvmtiErrorAbsentInformation),
        JvmtiStatusCode::JvmtiErrorInvalidEventType => Some(JvmtiError::JvmtiErrorInvalidEventType),
        JvmtiStatusCode::JvmtiErrorIllegalArgument => Some(JvmtiError::JvmtiErrorIllegalArgument),
        JvmtiStatusCode::JvmtiErrorNativeMethod => Some(JvmtiError::JvmtiErrorNativeMethod),
        JvmtiStatusCode::JvmtiErrorClassLoaderUnsupported => Some(JvmtiError::JvmtiErrorClassLoaderUnsupported),
        JvmtiStatusCode::JvmtiErrorOutOfMemory => Some(JvmtiError::JvmtiErrorOutOfMemory),
        JvmtiStatusCode::JvmtiErrorAccessDenied => Some(JvmtiError::JvmtiErrorAccessDenied),
        JvmtiStatusCode::JvmtiErrorWrongPhase => Some(JvmtiError::JvmtiErrorWrongPhase),
        JvmtiStatusCode::JvmtiErrorInternal => Some(JvmtiError::JvmtiErrorInternal),
        JvmtiStatusCode::JvmtiErrorUnattachedThread => Some(JvmtiError::JvmtiErrorUnattachedThread),
        JvmtiStatusCode::JvmtiErrorInvalidEnvironment => Some(JvmtiError::JvmtiErrorInvalidEnvironment),
    }
}

/// The typed error that carries a given discriminant, if any does.
pub open spec fn error_of_code(n: u32) -> Option<JvmtiError> {
    if n == 10 {
        Some(JvmtiError::JvmtiErrorInvalidThread)
    } else if n == 11 {
        Some(JvmtiError::JvmtiErrorInvalidThreadGroup)
    } else if n == 12 {
        Some(JvmtiError::JvmtiErrorInvalidPriority)
    } else if n == 13 {
        Some(JvmtiError::JvmtiErrorThreadNotSuspended)
    } else if n == 14 {
        Some(JvmtiError::JvmtiErrorThreadSuspended)
    } else if n == 15 {
        Some(JvmtiError::JvmtiErrorThreadNotAlive)
    } else if n == 20 {
        Some(JvmtiError::JvmtiErrorInvalidObject)
    } else if n == 21 {
        Some(JvmtiError::JvmtiErrorInvalidClass)
    } else if n == 22 {
        Some(JvmtiError::JvmtiErrorClassNotPrepared)
    } else if n == 23 {
        Some(JvmtiError::JvmtiErrorInvalidMethodid)
    } else if n == 24 {
        Some(JvmtiError::JvmtiErrorInvalidLocation)
    } else if n == 25 {
        Some(JvmtiError::JvmtiErrorInvalidFieldid)
    } else if n == 31 {
        Some(JvmtiError::JvmtiErrorNoMoreFrames)
    } else if n == 32 {
        Some(JvmtiError::JvmtiErrorOpaqueFrame)
    } else if n == 34 {
        Some(JvmtiError::JvmtiErrorTypeMismatch)
    } else if n == 35 {
        Some(JvmtiError::JvmtiErrorInvalidSlot)
    } else if n == 40 {
        Some(JvmtiError::JvmtiErrorDuplicate)
    } else if n == 41 {
        Some(JvmtiError::JvmtiErrorNotFound)
    } else if n == 50 {
        Some(JvmtiError::JvmtiErrorInvalidMonitor)
    } else if n == 51 {
        Some(JvmtiError::JvmtiErrorNotMonitorOwner)
    } else if n == 52 {
        Some(JvmtiError::JvmtiErrorInterrupt)
    } else if n == 60 {
        Some(JvmtiError::JvmtiErrorInvalidClassFormat)
    } else if n == 61 {
        Some(JvmtiError::JvmtiErrorCircularClassDefinition)
    } else if n == 62 {
        Some(JvmtiError::JvmtiErrorFailsVerification)
    } else if n == 63 {
        Some(JvmtiError::JvmtiErrorUnsupportedRedefinitionMethodAdded)
    } else if n == 64 {
        Some(JvmtiError::JvmtiErrorUnsupportedRedefinitionSchemaChanged)
    } else if n == 65 {
        Some(JvmtiError::JvmtiErrorInvalidTypestate)
    } else if n == 66 {
        Some(JvmtiError::JvmtiErrorUnsupportedRedefinitionHierarchyChanged)
    } else if n == 67 {
        Some(JvmtiError::JvmtiErrorUnsupportedRedefinitionMethodDeleted)
    } else if n == 68 {
        Some(JvmtiError::JvmtiErrorUnsupportedVersion)
    } else if n == 69 {
        Some(JvmtiError::JvmtiErrorNamesDontMatch)
    } else if n == 70 {
        Some(JvmtiError::JvmtiErrorUnsupportedRedefinitionClassModifiersChanged)
    } else if n == 71 {
        Some(JvmtiError::JvmtiErrorUnsupportedRedefinitionMethodModifiersChanged)
    } else if n == 79 {
        Some(JvmtiError::JvmtiErrorUnmodifiableClass)
    } else if n == 98 {
        Some(JvmtiError::JvmtiErrorNotAvailable)
    } else if n == 99 {
        Some(JvmtiError::JvmtiErrorMustPossessCapability)
    } else if n == 100 {
        Some(JvmtiError::JvmtiErrorNullPointer)
    } else if n == 101 {
        Some(JvmtiError::JvmtiErrorAbsentInformation)
    } else if n == 102 {
        Some(JvmtiError::JvmtiErrorInvalidEventType)
    } else if n == 103 {
        Some(JvmtiError::JvmtiErrorIllegalArgument)
    } else if n == 104 {
        Some(JvmtiError::JvmtiErrorNativeMethod)
    } else if n == 106 {
        Some(JvmtiError::JvmtiErrorClassLoaderUnsupported)
    } else if n == 110 {
        Some(JvmtiError::JvmtiErrorOutOfMemory)
    } else if n == 111 {
        Some(JvmtiError::JvmtiErrorAccessDenied)
    } else if n == 112 {
        Some(JvmtiError::JvmtiErrorWrongPhase)
    } else if n == 113 {
        Some(JvmtiError::JvmtiErrorInternal)
    } else if n == 115 {
        Some(JvmtiError::JvmtiErrorUnattachedThread)
    } else if n == 116 {
        Some(JvmtiError::JvmtiErrorInvalidEnvironment)
    } else {
        None
    }
}

impl JvmtiError {
    /// The stable numeric discriminant of this error, equal to the native
    /// status code it stands for.
    pub open spec fn code_spec(self) -> u32 {
        match self {
            JvmtiError::JvmtiErrorInvalidThread => 10,
            JvmtiError::JvmtiErrorInvalidThreadGroup => 11,
            JvmtiError::JvmtiErrorInvalidPriority => 12,
            JvmtiError::JvmtiErrorThreadNotSuspended => 13,
            JvmtiError::JvmtiErrorThreadSuspended => 14,
            JvmtiError::JvmtiErrorThreadNotAlive => 15,
            JvmtiError::JvmtiErrorInvalidObject => 20,
            JvmtiError::JvmtiErrorInvalidClass => 21,
            JvmtiError::JvmtiErrorClassNotPrepared => 22,
            JvmtiError::JvmtiErrorInvalidMethodid => 23,
            JvmtiError::JvmtiErrorInvalidLocation => 24,
            JvmtiError::JvmtiErrorInvalidFieldid => 25,
            JvmtiError::JvmtiErrorNoMoreFrames => 31,
            JvmtiError::JvmtiErrorOpaqueFrame => 32,
            JvmtiError::JvmtiErrorTypeMismatch => 34,
            JvmtiError::JvmtiErrorInvalidSlot => 35,
            JvmtiError::JvmtiErrorDuplicate => 40,
            JvmtiError::JvmtiErrorNotFound => 41,
            JvmtiError::JvmtiErrorInvalidMonitor => 50,
            JvmtiError::JvmtiErrorNotMonitorOwner => 51,
            JvmtiError::JvmtiErrorInterrupt => 52,
            JvmtiError::JvmtiErrorInvalidClassFormat => 60,
            JvmtiError::JvmtiErrorCircularClassDefinition => 61,
            JvmtiError::JvmtiErrorFailsVerification => 62,
            JvmtiError::JvmtiErrorUnsupportedRedefinitionMethodAdded => 63,
            JvmtiError::JvmtiErrorUnsupportedRedefinitionSchemaChanged => 64,
            JvmtiError::JvmtiErrorInvalidTypestate => 65,
            JvmtiError::JvmtiErrorUnsupportedRedefinitionHierarchyChanged => 66,
            JvmtiError::JvmtiErrorUnsupportedRedefinitionMethodDeleted => 67,
            JvmtiError::JvmtiErrorUnsupportedVersion => 68,
            JvmtiError::JvmtiErrorNamesDontMatch => 69,
            JvmtiError::JvmtiErrorUnsupportedRedefinitionClassModifiersChanged => 70,
            JvmtiError::JvmtiErrorUnsupportedRedefinitionMethodModifiersChanged => 71,
            JvmtiError::JvmtiErrorUnmodifiableClass => 79,
            JvmtiError::JvmtiErrorNotAvailable => 98,
            JvmtiError::JvmtiErrorMustPossessCapability => 99,
            JvmtiError::JvmtiErrorNullPointer => 100,
            JvmtiError::JvmtiErrorAbsentInformation => 101,
            JvmtiError::JvmtiErrorInvalidEventType => 102,
            JvmtiError::JvmtiErrorIllegalArgument => 103,
            JvmtiError::JvmtiErrorNativeMethod => 104,
            JvmtiError::JvmtiErrorClassLoaderUnsupported => 106,
            JvmtiError::JvmtiErrorOutOfMemory => 110,
            JvmtiError::JvmtiErrorAccessDenied => 111,
            JvmtiError::JvmtiErrorWrongPhase => 112,
            JvmtiError::JvmtiErrorInternal => 113,
            JvmtiError::JvmtiErrorUnattachedThread => 115,
            JvmtiError::JvmtiErrorInvalidEnvironment => 116,
        }
    }

    /// The fixed description of this error, fit for an operator or a log.
    pub open spec fn description_spec(self) -> Seq<char> {
        match self {
            JvmtiError::JvmtiErrorInvalidThread => "Invalid Thread"@,
            JvmtiError::JvmtiErrorInvalidThreadGroup => "Invalid Thread Group"@,
            JvmtiError::JvmtiErrorInvalidPriority => "Invalid Priority"@,
            JvmtiError::JvmtiErrorThreadNotSuspended => "Thread Not Suspended"@,
            JvmtiError::JvmtiErrorThreadSuspended => "Thread Suspended"@,
            JvmtiError::JvmtiErrorThreadNotAlive => "Thread Not Alive"@,
            JvmtiError::JvmtiErrorInvalidObject => "Invalid Object"@,
            JvmtiError::JvmtiErrorInvalidClass => "Invalid Class"@,
            JvmtiError::JvmtiErrorClassNotPrepared => "Class Not Prepared"@,
            JvmtiError::JvmtiErrorInvalidMethodid => "Invalid Methodid"@,
            JvmtiError::JvmtiErrorInvalidLocation => "Invalid Location"@,
            JvmtiError::JvmtiErrorInvalidFieldid => "Invalid Fieldid"@,
            JvmtiError::JvmtiErrorNoMoreFrames => "No More Frames"@,
            JvmtiError::JvmtiErrorOpaqueFrame => "Opaque Frame"@,
            JvmtiError::JvmtiErrorTypeMismatch => "Type Mismatch"@,
            JvmtiError::JvmtiErrorInvalidSlot => "Invalid Slot"@,
            JvmtiError::JvmtiErrorDuplicate => "Duplicate"@,
            JvmtiError::JvmtiErrorNotFound => "Not Found"@,
            JvmtiError::JvmtiErrorInvalidMonitor => "Invalid Monitor"@,
            JvmtiError::JvmtiErrorNotMonitorOwner => "Not Monitor Owner"@,
            JvmtiError::JvmtiErrorInterrupt => "Interrupt"@,
            JvmtiError::JvmtiErrorInvalidClassFormat => "Invalid Class Format"@,
            JvmtiError::JvmtiErrorCircularClassDefinition => "Circular Class Definition"@,
            JvmtiError::JvmtiErrorFailsVerification => "Fails Verification"@,
            JvmtiError::JvmtiErrorUnsupportedRedefinitionMethodAdded => "Unsupported Redefinition Method Added"@,
            JvmtiError::JvmtiErrorUnsupportedRedefinitionSchemaChanged => "Unsupported Redefinition Schema Changed"@,
            JvmtiError::JvmtiErrorInvalidTypestate => "Invalid Typestate"@,
            JvmtiError::JvmtiErrorUnsupportedRedefinitionHierarchyChanged => "Unsupported Redefinition Hierarchy Changed"@,
            JvmtiError::JvmtiErrorUnsupportedRedefinitionMethodDeleted => "Unsupported Redefinition Method Deleted"@,
            JvmtiError::JvmtiErrorUnsupportedVersion => "Unsupported Version"@,
            JvmtiError::JvmtiErrorNamesDontMatch => "Names Dont Match"@,
            JvmtiError::JvmtiErrorUnsupportedRedefinitionClassModifiersChanged => "Unsupported Redefinition Class Modifiers Changed"@,
            JvmtiError::JvmtiErrorUnsupportedRedefinitionMethodModifiersChanged => "Unsupported Redefinition Method Modifiers Changed"@,
            JvmtiError::JvmtiErrorUnmodifiableClass => "Unmodifiable Class"@,
            JvmtiError::JvmtiErrorNotAvailable => "Not Available"@,
            JvmtiError::JvmtiErrorMustPossessCapability => "Must Possess Capability"@,
            JvmtiError::JvmtiErrorNullPointer => "Null Pointer"@,
            JvmtiError::JvmtiErrorAbsentInformation => "Absent Information"@,
            JvmtiError::JvmtiErrorInvalidEventType => "Invalid Event Type"@,
            JvmtiError::JvmtiErrorIllegalArgument => "Illegal Argument"@,
            JvmtiError::JvmtiErrorNativeMethod => "Native Method"@,
            JvmtiError::JvmtiErrorClassLoaderUnsupported => "Class Loader Unsupported"@,
            JvmtiError::JvmtiErrorOutOfMemory => "Out Of Memory"@,
            JvmtiError::JvmtiErrorAccessDenied => "Access Denied"@,
            JvmtiError::JvmtiErrorWrongPhase => "Wrong Phase"@,
            JvmtiError::JvmtiErrorInternal => "Internal"@,
            JvmtiError::JvmtiErrorUnattachedThread => "Unattached Thread"@,
            JvmtiError::JvmtiErrorInvalidEnvironment => "Invalid Environment"@,
        }
    }

    pub fn code(&self) -> (n: u32)
        ensures
            n == self.code_spec(),
    {
        match *self {
            JvmtiError::JvmtiErrorInvalidThread => 10,
            JvmtiError::JvmtiErrorInvalidThreadGroup => 11,
            JvmtiError::JvmtiErrorInvalidPriority => 12,
            JvmtiError::JvmtiErrorThreadNotSuspended => 13,
            JvmtiError::JvmtiErrorThreadSuspended => 14,
            JvmtiError::JvmtiErrorThreadNotAlive => 15,
            JvmtiError::JvmtiErrorInvalidObject => 20,
            JvmtiError::JvmtiErrorInvalidClass => 21,
            JvmtiError::JvmtiErrorClassNotPrepared => 22,
            JvmtiError::JvmtiErrorInvalidMethodid => 23,
            JvmtiError::JvmtiErrorInvalidLocation => 24,
            JvmtiError::JvmtiErrorInvalidFieldid => 25,
            JvmtiError::JvmtiErrorNoMoreFrames => 31,
            JvmtiError::JvmtiErrorOpaqueFrame => 32,
            JvmtiError::JvmtiErrorTypeMismatch => 34,
            JvmtiError::JvmtiErrorInvalidSlot => 35,
            JvmtiError::JvmtiErrorDuplicate => 40,
            JvmtiError::JvmtiErrorNotFound => 41,
            JvmtiError::JvmtiErrorInvalidMonitor => 50,
            JvmtiError::JvmtiErrorNotMonitorOwner => 51,
            JvmtiError::JvmtiErrorInterrupt => 52,
            JvmtiError::JvmtiErrorInvalidClassFormat => 60,
            JvmtiError::JvmtiErrorCircularClassDefinition => 61,
            JvmtiError::JvmtiErrorFailsVerification => 62,
            JvmtiError::JvmtiErrorUnsupportedRedefinitionMethodAdded => 63,
            JvmtiError::JvmtiErrorUnsupportedRedefinitionSchemaChanged => 64,
            JvmtiError::JvmtiErrorInvalidTypestate => 65,
            JvmtiError::JvmtiErrorUnsupportedRedefinitionHierarchyChanged => 66,
            JvmtiError::JvmtiErrorUnsupportedRedefinitionMethodDeleted => 67,
            JvmtiError::JvmtiErrorUnsupportedVersion => 68,
            JvmtiError::JvmtiErrorNamesDontMatch => 69,
            JvmtiError::JvmtiErrorUnsupportedRedefinitionClassModifiersChanged => 70,
            JvmtiError::JvmtiErrorUnsupportedRedefinitionMethodModifiersChanged => 71,
            JvmtiError::JvmtiErrorUnmodifiableClass => 79,
            JvmtiError::JvmtiErrorNotAvailable => 98,
            JvmtiError::JvmtiErrorMustPossessCapability => 99,
            JvmtiError::JvmtiErrorNullPointer => 100,
            JvmtiError::JvmtiErrorAbsentInformation => 101,
            JvmtiError::JvmtiErrorInvalidEventType => 102,
            JvmtiError::JvmtiErrorIllegalArgument => 103,
            JvmtiError::JvmtiErrorNativeMethod => 104,
            JvmtiError::JvmtiErrorClassLoaderUnsupported => 106,
            JvmtiError::JvmtiErrorOutOfMemory => 110,
            JvmtiError::JvmtiErrorAccessDenied => 111,
            JvmtiError::JvmtiErrorWrongPhase => 112,
            JvmtiError::JvmtiErrorInternal => 113,
            JvmtiError::JvmtiErrorUnattachedThread => 115,
            JvmtiError::JvmtiErrorInvalidEnvironment => 116,
        }
    }

    pub fn description(&self) -> (d: String)
        ensures
            d@ == self.description_spec(),
    {
        match *self {
            JvmtiError::JvmtiErrorInvalidThread => String::from_str("Invalid Thread"),
            JvmtiError::JvmtiErrorInvalidThreadGroup => String::from_str("Invalid Thread Group"),
            JvmtiError::JvmtiErrorInvalidPriority => String::from_str("Invalid Priority"),
            JvmtiError::JvmtiErrorThreadNotSuspended => String::from_str("Thread Not Suspended"),
            JvmtiError::JvmtiErrorThreadSuspended => String::from_str("Thread Suspended"),
            JvmtiError::JvmtiErrorThreadNotAlive => String::from_str("Thread Not Alive"),
            JvmtiError::JvmtiErrorInvalidObject => String::from_str("Invalid Object"),
            JvmtiError::JvmtiErrorInvalidClass => String::from_str("Invalid Class"),
            JvmtiError::JvmtiErrorClassNotPrepared => String::from_str("Class Not Prepared"),
            JvmtiError::JvmtiErrorInvalidMethodid => String::from_str("Invalid Methodid"),
            JvmtiError::JvmtiErrorInvalidLocation => String::from_str("Invalid Location"),
            JvmtiError::JvmtiErrorInvalidFieldid => String::from_str("Invalid Fieldid"),
            JvmtiError::JvmtiErrorNoMoreFrames => String::from_str("No More Frames"),
            JvmtiError::JvmtiErrorOpaqueFrame => String::from_str("Opaque Frame"),
            JvmtiError::JvmtiErrorTypeMismatch => String::from_str("Type Mismatch"),
            JvmtiError::JvmtiErrorInvalidSlot => String::from_str("Invalid Slot"),
            JvmtiError::JvmtiErrorDuplicate => String::from_str("Duplicate"),
            JvmtiError::JvmtiErrorNotFound => String::from_str("Not Found"),
            JvmtiError::JvmtiErrorInvalidMonitor => String::from_str("Invalid Monitor"),
            JvmtiError::JvmtiErrorNotMonitorOwner => String::from_str("Not Monitor Owner"),
            JvmtiError::JvmtiErrorInterrupt => String::from_str("Interrupt"),
            JvmtiError::JvmtiErrorInvalidClassFormat => String::from_str("Invalid Class Format"),
            JvmtiError::JvmtiErrorCircularClassDefinition => String::from_str("Circular Class Definition"),
            JvmtiError::JvmtiErrorFailsVerification => String::from_str("Fails Verification"),
            JvmtiError::JvmtiErrorUnsupportedRedefinitionMethodAdded => String::from_str("Unsupported Redefinition Method Added"),
            JvmtiError::JvmtiErrorUnsupportedRedefinitionSchemaChanged => String::from_str("Unsupported Redefinition Schema Changed"),
            JvmtiError::JvmtiErrorInvalidTypestate => String::from_str("Invalid Typestate"),
            JvmtiError::JvmtiErrorUnsupportedRedefinitionHierarchyChanged => String::from_str("Unsupported Redefinition Hierarchy Changed"),
            JvmtiError::JvmtiErrorUnsupportedRedefinitionMethodDeleted => String::from_str("Unsupported Redefinition Method Deleted"),
            JvmtiError::JvmtiErrorUnsupportedVersion => String::from_str("Unsupported Version"),
            JvmtiError::JvmtiErrorNamesDontMatch => String::from_str("Names Dont Match"),
            JvmtiError::JvmtiErrorUnsupportedRedefinitionClassModifiersChanged => String::from_str("Unsupported Redefinition Class Modifiers Changed"),
            JvmtiError::JvmtiErrorUnsupportedRedefinitionMethodModifiersChanged => String::from_str("Unsupported Redefinition Method Modifiers Changed"),
            JvmtiError::JvmtiErrorUnmodifiableClass => String::from_str("Unmodifiable Class"),
            JvmtiError::JvmtiErrorNotAvailable => String::from_str("Not Available"),
            JvmtiError::JvmtiErrorMustPossessCapability => String::from_str("Must Possess Capability"),
            JvmtiError::JvmtiErrorNullPointer => String::from_str("Null Pointer"),
            JvmtiError::JvmtiErrorAbsentInformation => String::from_str("Absent Information"),
            JvmtiError::JvmtiErrorInvalidEventType => String::from_str("Invalid Event Type"),
            JvmtiError::JvmtiErrorIllegalArgument => String::from_str("Illegal Argument"),
            JvmtiError::JvmtiErrorNativeMethod => String::from_str("Native Method"),
            JvmtiError::JvmtiErrorClassLoaderUnsupported => String::from_str("Class Loader Unsupported"),
            JvmtiError::JvmtiErrorOutOfMemory => String::from_str("Out Of Memory"),
            JvmtiError::JvmtiErrorAccessDenied => String::from_str("Access Denied"),
            JvmtiError::JvmtiErrorWrongPhase => String::from_str("Wrong Phase"),
            JvmtiError::JvmtiErrorInternal => String::from_str("Internal"),
            JvmtiError::JvmtiErrorUnattachedThread => String::from_str("Unattached Thread"),
            JvmtiError::JvmtiErrorInvalidEnvironment => String::from_str("Invalid Environment"),
        }
    }

    /// Translate a confirmed-failure status code into its typed error.
    ///
    /// The caller must already have ruled the success sentinel out:
    /// translating success is a contract violation by the caller, not a
    /// recoverable outcome, so the precondition leaves it no path here.
    pub fn from(code: &JvmtiStatusCode) -> (e: JvmtiError)
        requires
            !code.is_success_spec(),
        ensures
            translate_spec(*code) == Some(e),
            e.code_spec() == code.value_spec(),
    {
        match *code {
            JvmtiStatusCode::JvmtiErrorNone => unreached(),
            JvmtiStatusCode::JvmtiErrorInvalidThread => JvmtiError::JvmtiErrorInvalidThread,
            JvmtiStatusCode::JvmtiErrorInvalidThreadGroup => JvmtiError::JvmtiErrorInvalidThreadGroup,
            JvmtiStatusCode::JvmtiErrorInvalidPriority => JvmtiError::JvmtiErrorInvalidPriority,
            JvmtiStatusCode::JvmtiErrorThreadNotSuspended => JvmtiError::JvmtiErrorThreadNotSuspended,
            JvmtiStatusCode::JvmtiErrorThreadSuspended => JvmtiError::JvmtiErrorThreadSuspended,
            JvmtiStatusCode::JvmtiErrorThreadNotAlive => JvmtiError::JvmtiErrorThreadNotAlive,
            JvmtiStatusCode::JvmtiErrorInvalidObject => JvmtiError::JvmtiErrorInvalidObject,
            JvmtiStatusCode::JvmtiErrorInvalidClass => JvmtiError::JvmtiErrorInvalidClass,
            JvmtiStatusCode::JvmtiErrorClassNotPrepared => JvmtiError::JvmtiErrorClassNotPrepared,
            JvmtiStatusCode::JvmtiErrorInvalidMethodid => JvmtiError::JvmtiErrorInvalidMethodid,
            JvmtiStatusCode::JvmtiErrorInvalidLocation => JvmtiError::JvmtiErrorInvalidLocation,
            JvmtiStatusCode::JvmtiErrorInvalidFieldid => JvmtiError::JvmtiErrorInvalidFieldid,
            JvmtiStatusCode::JvmtiErrorNoMoreFrames => JvmtiError::JvmtiErrorNoMoreFrames,
            JvmtiStatusCode::JvmtiErrorOpaqueFrame => JvmtiError::JvmtiErrorOpaqueFrame,
            JvmtiStatusCode::JvmtiErrorTypeMismatch => JvmtiError::JvmtiErrorTypeMismatch,
            JvmtiStatusCode::JvmtiErrorInvalidSlot => JvmtiError::JvmtiErrorInvalidSlot,
            JvmtiStatusCode::JvmtiErrorDuplicate => JvmtiError::JvmtiErrorDuplicate,
            JvmtiStatusCode::JvmtiErrorNotFound => JvmtiError::JvmtiErrorNotFound,
            JvmtiStatusCode::JvmtiErrorInvalidMonitor => JvmtiError::JvmtiErrorInvalidMonitor,
            JvmtiStatusCode::JvmtiErrorNotMonitorOwner => JvmtiError::JvmtiErrorNotMonitorOwner,
            JvmtiStatusCode::JvmtiErrorInterrupt => JvmtiError::JvmtiErrorInterrupt,
            JvmtiStatusCode::JvmtiErrorInvalidClassFormat => JvmtiError::JvmtiErrorInvalidClassFormat,
            JvmtiStatusCode::JvmtiErrorCircularClassDefinition => JvmtiError::JvmtiErrorCircularClassDefinition,
            JvmtiStatusCode::JvmtiErrorFailsVerification => JvmtiError::JvmtiErrorFailsVerification,
            JvmtiStatusCode::JvmtiErrorUnsupportedRedefinitionMethodAdded => JvmtiError::JvmtiErrorUnsupportedRedefinitionMethodAdded,
            JvmtiStatusCode::JvmtiErrorUnsupportedRedefinitionSchemaChanged => JvmtiError::JvmtiErrorUnsupportedRedefinitionSchemaChanged,
            JvmtiStatusCode::JvmtiErrorInvalidTypestate => JvmtiError::JvmtiErrorInvalidTypestate,
            JvmtiStatusCode::JvmtiErrorUnsupportedRedefinitionHierarchyChanged => JvmtiError::JvmtiErrorUnsupportedRedefinitionHierarchyChanged,
            JvmtiStatusCode::JvmtiErrorUnsupportedRedefinitionMethodDeleted => JvmtiError::JvmtiErrorUnsupportedRedefinitionMethodDeleted,
            JvmtiStatusCode::JvmtiErrorUnsupportedVersion => JvmtiError::JvmtiErrorUnsupportedVersion,
            JvmtiStatusCode::JvmtiErrorNamesDontMatch => JvmtiError::JvmtiErrorNamesDontMatch,
            JvmtiStatusCode::JvmtiErrorUnsupportedRedefinitionClassModifiersChanged => JvmtiError::JvmtiErrorUnsupportedRedefinitionClassModifiersChanged,
            JvmtiStatusCode::JvmtiErrorUnsupportedRedefinitionMethodModifiersChanged => JvmtiError::JvmtiErrorUnsupportedRedefinitionMethodModifiersChanged,
            JvmtiStatusCode::JvmtiErrorUnmodifiableClass => JvmtiError::JvmtiErrorUnmodifiableClass,
            JvmtiStatusCode::JvmtiErrorNotAvailable => JvmtiError::JvmtiErrorNotAvailable,
            JvmtiStatusCode::JvmtiErrorMustPossessCapability => JvmtiError::JvmtiErrorMustPossessCapability,
            JvmtiStatusCode::JvmtiErrorNullPointer => JvmtiError::JvmtiErrorNullPointer,
            JvmtiStatusCode::JvmtiErrorAbsentInformation => JvmtiError::JvmtiErrorAbsentInformation,
            JvmtiStatusCode::JvmtiErrorInvalidEventType => JvmtiError::JvmtiErrorInvalidEventType,
            JvmtiStatusCode::JvmtiErrorIllegalArgument => JvmtiError::JvmtiErrorIllegalArgument,
            JvmtiStatusCode::JvmtiErrorNativeMethod => JvmtiError::JvmtiErrorNativeMethod,
            JvmtiStatusCode::JvmtiErrorClassLoaderUnsupported => JvmtiError::JvmtiErrorClassLoaderUnsupported,
            JvmtiStatusCode::JvmtiErrorOutOfMemory => JvmtiError::JvmtiErrorOutOfMemory,
            JvmtiStatusCode::JvmtiErrorAccessDenied => JvmtiError::JvmtiErrorAccessDenied,
            JvmtiStatusCode::JvmtiErrorWrongPhase => JvmtiError::JvmtiErrorWrongPhase,
            JvmtiStatusCode::JvmtiErrorInternal => JvmtiError::JvmtiErrorInternal,
            JvmtiStatusCode::JvmtiErrorUnattachedThread => JvmtiError::JvmtiErrorUnattachedThread,
            JvmtiStatusCode::JvmtiErrorInvalidEnvironment => JvmtiError::JvmtiErrorInvalidEnvironment,
        }
    }
}

/// Totality: every non-success status code translates, and the typed
/// error it yields carries exactly the code's integer value.
pub proof fn lemma_translate_total(code: JvmtiStatusCode)
    requires
        !code.is_success_spec(),
    ensures
        translate_spec(code) matches Some(e) && e.code_spec() == code.value_spec(),
{
    match code {
        JvmtiStatusCode::JvmtiErrorNone => {}
        JvmtiStatusCode::JvmtiErrorInvalidThread => {}
        JvmtiStatusCode::JvmtiErrorInvalidThreadGroup => {}
        JvmtiStatusCode::JvmtiErrorInvalidPriority => {}
        JvmtiStatusCode::JvmtiErrorThreadNotSuspended => {}
        JvmtiStatusCode::JvmtiErrorThreadSuspended => {}
        JvmtiStatusCode::JvmtiErrorThreadNotAlive => {}
        JvmtiStatusCode::JvmtiErrorInvalidObject => {}
        JvmtiStatusCode::JvmtiErrorInvalidClass => {}
        JvmtiStatusCode::JvmtiErrorClassNotPrepared => {}
        JvmtiStatusCode::JvmtiErrorInvalidMethodid => {}
        JvmtiStatusCode::JvmtiErrorInvalidLocation => {}
        JvmtiStatusCode::JvmtiErrorInvalidFieldid => {}
        JvmtiStatusCode::JvmtiErrorNoMoreFrames => {}
        JvmtiStatusCode::JvmtiErrorOpaqueFrame => {}
        JvmtiStatusCode::JvmtiErrorTypeMismatch => {}
        JvmtiStatusCode::JvmtiErrorInvalidSlot => {}
        JvmtiStatusCode::JvmtiErrorDuplicate => {}
        JvmtiStatusCode::JvmtiErrorNotFound => {}
        JvmtiStatusCode::JvmtiErrorInvalidMonitor => {}
        JvmtiStatusCode::JvmtiErrorNotMonitorOwner => {}
        JvmtiStatusCode::JvmtiErrorInterrupt => {}
        JvmtiStatusCode::JvmtiErrorInvalidClassFormat => {}
        JvmtiStatusCode::JvmtiErrorCircularClassDefinition => {}
        JvmtiStatusCode::JvmtiErrorFailsVerification => {}
        JvmtiStatusCode::JvmtiErrorUnsupportedRedefinitionMethodAdded => {}
        JvmtiStatusCode::JvmtiErrorUnsupportedRedefinitionSchemaChanged => {}
        JvmtiStatusCode::JvmtiErrorInvalidTypestate => {}
        JvmtiStatusCode::JvmtiErrorUnsupportedRedefinitionHierarchyChanged => {}
        JvmtiStatusCode::JvmtiErrorUnsupportedRedefinitionMethodDeleted => {}
        JvmtiStatusCode::JvmtiErrorUnsupportedVersion => {}
        JvmtiStatusCode::JvmtiErrorNamesDontMatch => {}
        JvmtiStatusCode::JvmtiErrorUnsupportedRedefinitionClassModifiersChanged => {}
        JvmtiStatusCode::JvmtiErrorUnsupportedRedefinitionMethodModifiersChanged => {}
        JvmtiStatusCode::JvmtiErrorUnmodifiableClass => {}
        JvmtiStatusCode::JvmtiErrorNotAvailable => {}
        JvmtiStatusCode::JvmtiErrorMustPossessCapability => {}
        JvmtiStatusCode::JvmtiErrorNullPointer => {}
        JvmtiStatusCode::JvmtiErrorAbsentInformation => {}
        JvmtiStatusCode::JvmtiErrorInvalidEventType => {}
        JvmtiStatusCode::JvmtiErrorIllegalArgument => {}
        JvmtiStatusCode::JvmtiErrorNativeMethod => {}
        JvmtiStatusCode::JvmtiErrorClassLoaderUnsupported => {}
        JvmtiStatusCode::JvmtiErrorOutOfMemory => {}
        JvmtiStatusCode::JvmtiErrorAccessDenied => {}
        JvmtiStatusCode::JvmtiErrorWrongPhase => {}
        JvmtiStatusCode::JvmtiErrorInternal => {}
        JvmtiStatusCode::JvmtiErrorUnattachedThread => {}
        JvmtiStatusCode::JvmtiErrorInvalidEnvironment => {}
    }
}

/// Each typed error is the one error that carries its discriminant.
pub proof fn lemma_code_identifies(e: JvmtiError)
    ensures
        error_of_code(e.code_spec()) == Some(e),
{
    match e {
        JvmtiError::JvmtiErrorInvalidThread => {}
        JvmtiError::JvmtiErrorInvalidThreadGroup => {}
        JvmtiError::JvmtiErrorInvalidPriority => {}
        JvmtiError::JvmtiErrorThreadNotSuspended => {}
        JvmtiError::JvmtiErrorThreadSuspended => {}
        JvmtiError::JvmtiErrorThreadNotAlive => {}
        JvmtiError::JvmtiErrorInvalidObject => {}
        JvmtiError::JvmtiErrorInvalidClass => {}
        JvmtiError::JvmtiErrorClassNotPrepared => {}
        JvmtiError::JvmtiErrorInvalidMethodid => {}
        JvmtiError::JvmtiErrorInvalidLocation => {}
        JvmtiError::JvmtiErrorInvalidFieldid => {}
        JvmtiError::JvmtiErrorNoMoreFrames => {}
        JvmtiError::JvmtiErrorOpaqueFrame => {}
        JvmtiError::JvmtiErrorTypeMismatch => {}
        JvmtiError::JvmtiErrorInvalidSlot => {}
        JvmtiError::JvmtiErrorDuplicate => {}
        JvmtiError::JvmtiErrorNotFound => {}
        JvmtiError::JvmtiErrorInvalidMonitor => {}
        JvmtiError::JvmtiErrorNotMonitorOwner => {}
        JvmtiError::JvmtiErrorInterrupt => {}
        JvmtiError::JvmtiErrorInvalidClassFormat => {}
        JvmtiError::JvmtiErrorCircularClassDefinition => {}
        JvmtiError::JvmtiErrorFailsVerification => {}
        JvmtiError::JvmtiErrorUnsupportedRedefinitionMethodAdded => {}
        JvmtiError::JvmtiErrorUnsupportedRedefinitionSchemaChanged => {}
        JvmtiError::JvmtiErrorInvalidTypestate => {}
        JvmtiError::JvmtiErrorUnsupportedRedefinitionHierarchyChanged => {}
        JvmtiError::JvmtiErrorUnsupportedRedefinitionMethodDeleted => {}
        JvmtiError::JvmtiErrorUnsupportedVersion => {}
        JvmtiError::JvmtiErrorNamesDontMatch => {}
        JvmtiError::JvmtiErrorUnsupportedRedefinitionClassModifiersChanged => {}
        JvmtiError::JvmtiErrorUnsupportedRedefinitionMethodModifiersChanged => {}
        JvmtiError::JvmtiErrorUnmodifiableClass => {}
        JvmtiError::JvmtiErrorNotAvailable => {}
        JvmtiError::JvmtiErrorMustPossessCapability => {}
        JvmtiError::JvmtiErrorNullPointer => {}
        JvmtiError::JvmtiErrorAbsentInformation => {}
        JvmtiError::JvmtiErrorInvalidEventType => {}
        JvmtiError::JvmtiErrorIllegalArgument => {}
        JvmtiError::JvmtiErrorNativeMethod => {}
        JvmtiError::JvmtiErrorClassLoaderUnsupported => {}
        JvmtiError::JvmtiErrorOutOfMemory => {}
        JvmtiError::JvmtiErrorAccessDenied => {}
        JvmtiError::JvmtiErrorWrongPhase => {}
        JvmtiError::JvmtiErrorInternal => {}
        JvmtiError::JvmtiErrorUnattachedThread => {}
        JvmtiError::JvmtiErrorInvalidEnvironment => {}
    }
}

/// Injectivity: no two distinct typed errors share a discriminant, so no
/// two distinct status codes translate to the same error.
pub proof fn lemma_code_injective(e1: JvmtiError, e2: JvmtiError)
    requires
        e1.code_spec() == e2.code_spec(),
    ensures
        e1 == e2,
{
    lemma_code_identifies(e1);
    lemma_code_identifies(e2);
}

/// Round trip: a typed error's discriminant leads back, through the
/// native code space, to the one status code that translates to it.
pub proof fn lemma_round_trip(e: JvmtiError)
    ensures
        JvmtiStatusCode::from_value_spec(e.code_spec()) matches Some(code)
            && translate_spec(code) == Some(e),
{
    match e {
        JvmtiError::JvmtiErrorInvalidThread => {}
        JvmtiError::JvmtiErrorInvalidThreadGroup => {}
        JvmtiError::JvmtiErrorInvalidPriority => {}
        JvmtiError::JvmtiErrorThreadNotSuspended => {}
        JvmtiError::JvmtiErrorThreadSuspended => {}
        JvmtiError::JvmtiErrorThreadNotAlive => {}
        JvmtiError::JvmtiErrorInvalidObject => {}
        JvmtiError::JvmtiErrorInvalidClass => {}
        JvmtiError::JvmtiErrorClassNotPrepared => {}
        JvmtiError::JvmtiErrorInvalidMethodid => {}
        JvmtiError::JvmtiErrorInvalidLocation => {}
        JvmtiError::JvmtiErrorInvalidFieldid => {}
        JvmtiError::JvmtiErrorNoMoreFrames => {}
        JvmtiError::JvmtiErrorOpaqueFrame => {}
        JvmtiError::JvmtiErrorTypeMismatch => {}
        JvmtiError::JvmtiErrorInvalidSlot => {}
        JvmtiError::JvmtiErrorDuplicate => {}
        JvmtiError::JvmtiErrorNotFound => {}
        JvmtiError::JvmtiErrorInvalidMonitor => {}
        JvmtiError::JvmtiErrorNotMonitorOwner => {}
        JvmtiError::JvmtiErrorInterrupt => {}
        JvmtiError::JvmtiErrorInvalidClassFormat => {}
        JvmtiError::JvmtiErrorCircularClassDefinition => {}
        JvmtiError::JvmtiErrorFailsVerification => {}
        JvmtiError::JvmtiErrorUnsupportedRedefinitionMethodAdded => {}
        JvmtiError::JvmtiErrorUnsupportedRedefinitionSchemaChanged => {}
        JvmtiError::JvmtiErrorInvalidTypestate => {}
        JvmtiError::JvmtiErrorUnsupportedRedefinitionHierarchyChanged => {}
        JvmtiError::JvmtiErrorUnsupportedRedefinitionMethodDeleted => {}
        JvmtiError::JvmtiErrorUnsupportedVersion => {}
        JvmtiError::JvmtiErrorNamesDontMatch => {}
        JvmtiError::JvmtiErrorUnsupportedRedefinitionClassModifiersChanged => {}
        JvmtiError::JvmtiErrorUnsupportedRedefinitionMethodModifiersChanged => {}
        JvmtiError::JvmtiErrorUnmodifiableClass => {}
        JvmtiError::JvmtiErrorNotAvailable => {}
        JvmtiError::JvmtiErrorMustPossessCapability => {}
        JvmtiError::JvmtiErrorNullPointer => {}
        JvmtiError::JvmtiErrorAbsentInformation => {}
        JvmtiError::JvmtiErrorInvalidEventType => {}
        JvmtiError::JvmtiErrorIllegalArgument => {}
        JvmtiError::JvmtiErrorNativeMethod => {}
        JvmtiError::JvmtiErrorClassLoaderUnsupported => {}
        JvmtiError::JvmtiErrorOutOfMemory => {}
        JvmtiError::JvmtiErrorAccessDenied => {}
        JvmtiError::JvmtiErrorWrongPhase => {}
        JvmtiError::JvmtiErrorInternal => {}
        JvmtiError::JvmtiErrorUnattachedThread => {}
        JvmtiError::JvmtiErrorInvalidEnvironment => {}
    }
}

/// Success is never a typed error: the success sentinel is the zero value
/// and nothing in the error domain translates from it.
pub proof fn lemma_success_is_no_error()
    ensures
        translate_spec(JvmtiStatusCode::JvmtiErrorNone) is None,
        JvmtiStatusCode::JvmtiErrorNone.value_spec() == 0,
        forall|e: JvmtiError| e.code_spec() != 0,
{
    assert forall|e: JvmtiError| e.code_spec() != 0 by {
        match e {
            JvmtiError::JvmtiErrorInvalidThread => {}
            JvmtiError::JvmtiErrorInvalidThreadGroup => {}
            JvmtiError::JvmtiErrorInvalidPriority => {}
            JvmtiError::JvmtiErrorThreadNotSuspended => {}
            JvmtiError::JvmtiErrorThreadSuspended => {}
            JvmtiError::JvmtiErrorThreadNotAlive => {}
            JvmtiError::JvmtiErrorInvalidObject => {}
            JvmtiError::JvmtiErrorInvalidClass => {}
            JvmtiError::JvmtiErrorClassNotPrepared => {}
            JvmtiError::JvmtiErrorInvalidMethodid => {}
            JvmtiError::JvmtiErrorInvalidLocation => {}
            JvmtiError::JvmtiErrorInvalidFieldid => {}
            JvmtiError::JvmtiErrorNoMoreFrames => {}
            JvmtiError::JvmtiErrorOpaqueFrame => {}
            JvmtiError::JvmtiErrorTypeMismatch => {}
            JvmtiError::JvmtiErrorInvalidSlot => {}
            JvmtiError::JvmtiErrorDuplicate => {}
            JvmtiError::JvmtiErrorNotFound => {}
            JvmtiError::JvmtiErrorInvalidMonitor => {}
            JvmtiError::JvmtiErrorNotMonitorOwner => {}
            JvmtiError::JvmtiErrorInterrupt => {}
            JvmtiError::JvmtiErrorInvalidClassFormat => {}
            JvmtiError::JvmtiErrorCircularClassDefinition => {}
            JvmtiError::JvmtiErrorFailsVerification => {}
            JvmtiError::JvmtiErrorUnsupportedRedefinitionMethodAdded => {}
            JvmtiError::JvmtiErrorUnsupportedRedefinitionSchemaChanged => {}
            JvmtiError::JvmtiErrorInvalidTypestate => {}
            JvmtiError::JvmtiErrorUnsupportedRedefinitionHierarchyChanged => {}
            JvmtiError::JvmtiErrorUnsupportedRedefinitionMethodDeleted => {}
            JvmtiError::JvmtiErrorUnsupportedVersion => {}
            JvmtiError::JvmtiErrorNamesDontMatch => {}
            JvmtiError::JvmtiErrorUnsupportedRedefinitionClassModifiersChanged => {}
            JvmtiError::JvmtiErrorUnsupportedRedefinitionMethodModifiersChanged => {}
            JvmtiError::JvmtiErrorUnmodifiableClass => {}
            JvmtiError::JvmtiErrorNotAvailable => {}
            JvmtiError::JvmtiErrorMustPossessCapability => {}
            JvmtiError::JvmtiErrorNullPointer => {}
            JvmtiError::JvmtiErrorAbsentInformation => {}
            JvmtiError::JvmtiErrorInvalidEventType => {}
            JvmtiError::JvmtiErrorIllegalArgument => {}
            JvmtiError::JvmtiErrorNativeMethod => {}
            JvmtiError::JvmtiErrorClassLoaderUnsupported => {}
            JvmtiError::JvmtiErrorOutOfMemory => {}
            JvmtiError::JvmtiErrorAccessDenied => {}
            JvmtiError::JvmtiErrorWrongPhase => {}
            JvmtiError::JvmtiErrorInternal => {}
            JvmtiError::JvmtiErrorUnattachedThread => {}
            JvmtiError::JvmtiErrorInvalidEnvironment => {}
        }
    }
}

/// Every description is non-empty; it is a function of the variant alone,
/// so repeated renderings of one error are identical.
pub proof fn lemma_description_nonempty(e: JvmtiError)
    ensures
        e.description_spec().len() > 0,
{
    match e {
        JvmtiError::JvmtiErrorInvalidThread => { reveal_strlit("Invalid Thread"); }
        JvmtiError::JvmtiErrorInvalidThreadGroup => { reveal_strlit("Invalid Thread Group"); }
        JvmtiError::JvmtiErrorInvalidPriority => { reveal_strlit("Invalid Priority"); }
        JvmtiError::JvmtiErrorThreadNotSuspended => { reveal_strlit("Thread Not Suspended"); }
        JvmtiError::JvmtiErrorThreadSuspended => { reveal_strlit("Thread Suspended"); }
        JvmtiError::JvmtiErrorThreadNotAlive => { reveal_strlit("Thread Not Alive"); }
        JvmtiError::JvmtiErrorInvalidObject => { reveal_strlit("Invalid Object"); }
        JvmtiError::JvmtiErrorInvalidClass => { reveal_strlit("Invalid Class"); }
        JvmtiError::JvmtiErrorClassNotPrepared => { reveal_strlit("Class Not Prepared"); }
        JvmtiError::JvmtiErrorInvalidMethodid => { reveal_strlit("Invalid Methodid"); }
        JvmtiError::JvmtiErrorInvalidLocation => { reveal_strlit("Invalid Location"); }
        JvmtiError::JvmtiErrorInvalidFieldid => { reveal_strlit("Invalid Fieldid"); }
        JvmtiError::JvmtiErrorNoMoreFrames => { reveal_strlit("No More Frames"); }
        JvmtiError::JvmtiErrorOpaqueFrame => { reveal_strlit("Opaque Frame"); }
        JvmtiError::JvmtiErrorTypeMismatch => { reveal_strlit("Type Mismatch"); }
        JvmtiError::JvmtiErrorInvalidSlot => { reveal_strlit("Invalid Slot"); }
        JvmtiError::JvmtiErrorDuplicate => { reveal_strlit("Duplicate"); }
        JvmtiError::JvmtiErrorNotFound => { reveal_strlit("Not Found"); }
        JvmtiError::JvmtiErrorInvalidMonitor => { reveal_strlit("Invalid Monitor"); }
        JvmtiError::JvmtiErrorNotMonitorOwner => { reveal_strlit("Not Monitor Owner"); }
        JvmtiError::JvmtiErrorInterrupt => { reveal_strlit("Interrupt"); }
        JvmtiError::JvmtiErrorInvalidClassFormat => { reveal_strlit("Invalid Class Format"); }
        JvmtiError::JvmtiErrorCircularClassDefinition => { reveal_strlit("Circular Class Definition"); }
        JvmtiError::JvmtiErrorFailsVerification => { reveal_strlit("Fails Verification"); }
        JvmtiError::JvmtiErrorUnsupportedRedefinitionMethodAdded => { reveal_strlit("Unsupported Redefinition Method Added"); }
        JvmtiError::JvmtiErrorUnsupportedRedefinitionSchemaChanged => { reveal_strlit("Unsupported Redefinition Schema Changed"); }
        JvmtiError::JvmtiErrorInvalidTypestate => { reveal_strlit("Invalid Typestate"); }
        JvmtiError::JvmtiErrorUnsupportedRedefinitionHierarchyChanged => { reveal_strlit("Unsupported Redefinition Hierarchy Changed"); }
        JvmtiError::JvmtiErrorUnsupportedRedefinitionMethodDeleted => { reveal_strlit("Unsupported Redefinition Method Deleted"); }
        JvmtiError::JvmtiErrorUnsupportedVersion => { reveal_strlit("Unsupported Version"); }
        JvmtiError::JvmtiErrorNamesDontMatch => { reveal_strlit("Names Dont Match"); }
        JvmtiError::JvmtiErrorUnsupportedRedefinitionClassModifiersChanged => { reveal_strlit("Unsupported Redefinition Class Modifiers Changed"); }
        JvmtiError::JvmtiErrorUnsupportedRedefinitionMethodModifiersChanged => { reveal_strlit("Unsupported Redefinition Method Modifiers Changed"); }
        JvmtiError::JvmtiErrorUnmodifiableClass => { reveal_strlit("Unmodifiable Class"); }
        JvmtiError::JvmtiErrorNotAvailable => { reveal_strlit("Not Available"); }
        JvmtiError::JvmtiErrorMustPossessCapability => { reveal_strlit("Must Possess Capability"); }
        JvmtiError::JvmtiErrorNullPointer => { reveal_strlit("Null Pointer"); }
        JvmtiError::JvmtiErrorAbsentInformation => { reveal_strlit("Absent Information"); }
        JvmtiError::JvmtiErrorInvalidEventType => { reveal_strlit("Invalid Event Type"); }
        JvmtiError::JvmtiErrorIllegalArgument => { reveal_strlit("Illegal Argument"); }
        JvmtiError::JvmtiErrorNativeMethod => { reveal_strlit("Native Method"); }
        JvmtiError::JvmtiErrorClassLoaderUnsupported => { reveal_strlit("Class Loader Unsupported"); }
        JvmtiError::JvmtiErrorOutOfMemory => { reveal_strlit("Out Of Memory"); }
        JvmtiError::JvmtiErrorAccessDenied => { reveal_strlit("Access Denied"); }
        JvmtiError::JvmtiErrorWrongPhase => { reveal_strlit("Wrong Phase"); }
        JvmtiError::JvmtiErrorInternal => { reveal_strlit("Internal"); }
        JvmtiError::JvmtiErrorUnattachedThread => { reveal_strlit("Unattached Thread"); }
        JvmtiError::JvmtiErrorInvalidEnvironment => { reveal_strlit("Invalid Environment"); }
    }
}

} // verus!
