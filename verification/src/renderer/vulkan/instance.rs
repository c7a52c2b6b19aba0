//! The request that creates the API instance.

use vstd::prelude::*;
use crate::define::ENGINE_VERSION;
use crate::error_handler::EVlkApi;
use crate::logs::Level;
use crate::text::holds_char;
use super::failure::{VlkCause, VlkFailure};
use super::validation_layer::ValidationLayer;

verus! {

/// Name under which the engine announces itself to the driver.
pub const ENGINE_NAME: &'static str = "Cobia";

/// What the loaded graphics library reports of itself.
#[derive(Debug)]
pub struct LibraryInfo {
    /// The names of the instance extensions that the windowing backend of the
    /// target platform needs.
    pub window_extensions: Vec<String>,
    /// The library supports the debug-utilities extension.
    pub ext_debug_utils: bool,
    /// The library supports the validation-features extension.
    pub ext_validation_features: bool,
}

/// A validation feature that the engine switches on where it can.
#[derive(Debug, Clone, Copy, PartialEq, Eq, Structural)]
pub enum ValidationFeatureEnable {
    BestPractices,
    DebugPrintf,
    SynchronizationValidation,
}

/// The request that creates the instance.
#[derive(Debug)]
pub struct InstanceCreateInfo {
    pub application_name: String,
    pub application_version: (u32, u32, u32),
    pub engine_name: String,
    pub engine_version: (u32, u32, u32),
    pub window_extensions: Vec<String>,
    pub ext_debug_utils: bool,
    pub ext_validation_features: bool,
    pub enabled_layers: Vec<&'static str>,
    pub enumerate_portability: bool,
    pub enabled_validation_features: Vec<ValidationFeatureEnable>,
}

/// The validation features asked for where the extension is there: all three.
pub open spec fn validation_features_for(supported: bool) -> Seq<ValidationFeatureEnable> {
    if supported {
        seq![
            ValidationFeatureEnable::BestPractices,
            ValidationFeatureEnable::DebugPrintf,
            ValidationFeatureEnable::SynchronizationValidation,
        ]
    } else {
        Seq::empty()
    }
}

/// The layers asked for: the requested ones where they are usable, else none.
pub open spec fn layers_for(vlayer: ValidationLayer) -> Seq<&'static str> {
    if vlayer.enabled() {
        vlayer.requested()
    } else {
        Seq::empty()
    }
}

/// `request` is the request for an instance of the application `app_name` in the
/// version `app_ver`, on the library `library`, with the layers of `vlayer`.
pub open spec fn describes_instance(
    request: InstanceCreateInfo,
    app_name: Seq<char>,
    app_ver: (u32, u32, u32),
    library: LibraryInfo,
    vlayer: ValidationLayer,
) -> bool {
    &&& request.application_name@ == app_name
    &&& request.application_version == app_ver
    &&& request.engine_name@ == ENGINE_NAME@
    &&& request.engine_version == ENGINE_VERSION
    &&& request.window_extensions == library.window_extensions
    &&& request.ext_debug_utils
    &&& request.ext_validation_features == library.ext_validation_features
    &&& request.enabled_layers@ == layers_for(vlayer)
    &&& request.enumerate_portability
    &&& request.enabled_validation_features@ == validation_features_for(
        library.ext_validation_features,
    )
}

/// The failure of planning an instance, if any. The library is looked at first,
/// then the application's name, then the debug-utilities extension.
pub open spec fn instance_failure(app_name: Seq<char>, library: Result<LibraryInfo, String>)
    -> Option<VlkFailure> {
    match library {
        Err(why) => Some(
            VlkFailure { kind: EVlkApi::Library, cause: VlkCause::LibraryUnavailable(why) },
        ),
        Ok(lib) => if app_name.contains('\0') {
            Some(VlkFailure { kind: EVlkApi::Instance, cause: VlkCause::NameHoldsNul })
        } else if !lib.ext_debug_utils {
            Some(VlkFailure { kind: EVlkApi::Instance, cause: VlkCause::DebugUtilsUnsupported })
        } else {
            None
        },
    }
}

/// What planning an instance has to tell on success.
#[derive(Debug, Clone, Copy, PartialEq, Eq, Structural)]
pub enum InstanceDiagnostic {
    DebugUtilsSupported,
    ValidationFeaturesSupported,
    ValidationFeaturesUnsupported,
}

impl InstanceDiagnostic {
    pub open spec fn level_of(self) -> Level {
        match self {
            InstanceDiagnostic::DebugUtilsSupported => Level::DEBUG,
            InstanceDiagnostic::ValidationFeaturesSupported => Level::DEBUG,
            InstanceDiagnostic::ValidationFeaturesUnsupported => Level::WARN,
        }
    }

    /// The level at which the diagnostic is logged: a missing optional extension
    /// is a warning, what is there is a detail for debugging.
    pub fn level(&self) -> (r: Level)
        ensures
            r == self.level_of(),
    {
        match self {
            InstanceDiagnostic::DebugUtilsSupported => Level::DEBUG,
            InstanceDiagnostic::ValidationFeaturesSupported => Level::DEBUG,
            InstanceDiagnostic::ValidationFeaturesUnsupported => Level::WARN,
        }
    }
}

/// The diagnostics of a successful plan, in the order they are logged.
pub open spec fn instance_diagnostics(library: LibraryInfo) -> Seq<InstanceDiagnostic> {
    seq![
        InstanceDiagnostic::DebugUtilsSupported,
        if library.ext_validation_features {
            InstanceDiagnostic::ValidationFeaturesSupported
        } else {
            InstanceDiagnostic::ValidationFeaturesUnsupported
        },
    ]
}

/// Builds the request for the instance of an application.
///
/// Without the graphics library nothing can be built. The debug-utilities
/// extension is required: where the library lacks it, planning fails. The
/// validation-features extension is optional: where the library lacks it, the
/// request does without and a warning is handed back. The layers are named only
/// where the check found them usable.
pub fn create_vlk_instance(
    app_name: &str,
    app_ver: (u32, u32, u32),
    library: Result<LibraryInfo, String>,
    vlayer: &ValidationLayer,
) -> (r: Result<(InstanceCreateInfo, Vec<InstanceDiagnostic>), VlkFailure>)
    ensures
        match instance_failure(app_name@, library) {
            Some(failure) => r == Err::<(InstanceCreateInfo, Vec<InstanceDiagnostic>), _>(failure),
            None => r matches Ok((request, diagnostics)) && describes_instance(
                request,
                app_name@,
                app_ver,
                library->Ok_0,
                *vlayer,
            ) && diagnostics@ == instance_diagnostics(library->Ok_0),
        },
{
    let lib = match library {
        Ok(lib) => lib,
        Err(why) => {
            return Err(
                VlkFailure { kind: EVlkApi::Library, cause: VlkCause::LibraryUnavailable(why) },
            );
        },
    };
    if holds_char(app_name, '\0') {
        return Err(VlkFailure { kind: EVlkApi::Instance, cause: VlkCause::NameHoldsNul });
    }
    if !lib.ext_debug_utils {
        return Err(VlkFailure { kind: EVlkApi::Instance, cause: VlkCause::DebugUtilsUnsupported });
    }
    let mut diagnostics: Vec<InstanceDiagnostic> = Vec::new();
    diagnostics.push(InstanceDiagnostic::DebugUtilsSupported);
    let mut features: Vec<ValidationFeatureEnable> = Vec::new();
    if lib.ext_validation_features {
        diagnostics.push(InstanceDiagnostic::ValidationFeaturesSupported);
        features.push(ValidationFeatureEnable::BestPractices);
        features.push(ValidationFeatureEnable::DebugPrintf);
        features.push(ValidationFeatureEnable::SynchronizationValidation);
    } else {
        diagnostics.push(InstanceDiagnostic::ValidationFeaturesUnsupported);
    }
    assert(features@ =~= validation_features_for(lib.ext_validation_features));
    assert(diagnostics@ =~= instance_diagnostics(lib));
    let request = InstanceCreateInfo {
        application_name: app_name.to_owned(),
        application_version: app_ver,
        engine_name: ENGINE_NAME.to_owned(),
        engine_version: ENGINE_VERSION,
        window_extensions: lib.window_extensions,
        ext_debug_utils: true,
        ext_validation_features: lib.ext_validation_features,
        enabled_layers: vlayer.get_enable_layer(),
        enumerate_portability: true,
        enabled_validation_features: features,
    };
    Ok((request, diagnostics))
}

/// The instance and the record of the optional features it was created with.
#[derive(Debug, Clone, Copy, PartialEq, Eq, Structural)]
pub struct InstanceRecord {
    pub instance: u64,
    /// The validation-features extension was enabled.
    pub validation_features: bool,
    /// The validation layers were enabled.
    pub validation_layers: bool,
}

/// Takes over the instance that the driver created from `request`, or reports the
/// driver's refusal.
pub fn create_instance(request: &InstanceCreateInfo, created: Result<u64, String>) -> (r: Result<
    InstanceRecord,
    VlkFailure,
>)
    ensures
        match created {
            Ok(handle) => r == Ok::<_, VlkFailure>(
                InstanceRecord {
                    instance: handle,
                    validation_features: request.ext_validation_features,
                    validation_layers: request.enabled_layers@.len() > 0,
                },
            ),
            Err(why) => r == Err::<InstanceRecord, _>(
                VlkFailure { kind: EVlkApi::Instance, cause: VlkCause::DriverRejected(why) },
            ),
        },
{
    match created {
        Ok(handle) => Ok(
            InstanceRecord {
                instance: handle,
                validation_features: request.ext_validation_features,
                validation_layers: request.enabled_layers.len() > 0,
            },
        ),
        Err(why) => Err(
            VlkFailure { kind: EVlkApi::Instance, cause: VlkCause::DriverRejected(why) },
        ),
    }
}

} // verus!
