//! What the agent reports of itself.

use crate::json::{
    get_field, json_bool, json_get, json_null, json_text, json_view, set_field, Json,
};
use vstd::prelude::*;

verus! {

/// The directories of the agent, and the state that they are in.
#[derive(Debug)]
pub struct LayoutReport {
    pub layout: serde_json::Value,
    pub data_dir: serde_json::Value,
    pub state_dir: serde_json::Value,
    pub runtime_dir: serde_json::Value,
    pub installation_record: bool,
}

/// The state of the directories.
pub open spec fn state_fields(report: LayoutReport) -> Map<Seq<char>, Json> {
    map![
        "dataDir"@ => json_view(report.data_dir),
        "stateDir"@ => json_view(report.state_dir),
        "runtimeDir"@ => json_view(report.runtime_dir),
        "installationRecord"@ => Json::Text(
            if report.installation_record {
                "available"@
            } else {
                "missing"@
            },
        ),
    ]
}

/// The fields of the status report.
pub open spec fn status_fields(
    version: serde_json::Value,
    layout: Result<LayoutReport, String>,
) -> Map<Seq<char>, Json> {
    match layout {
        Ok(report) => map![
            "version"@ => json_view(version),
            "layout"@ => json_view(report.layout),
            "state"@ => Json::Object(state_fields(report)),
        ],
        Err(code) => map![
            "version"@ => json_view(version),
            "layout"@ => Json::Null,
            "state"@ => Json::Object(map!["layout"@ => Json::Text("unavailable"@)]),
            "diagnostic"@ => Json::Text(code@),
        ],
    }
}

/// The verdict of the doctor.
pub open spec fn doctor_code(layout: Result<LayoutReport, String>, supported: bool) -> Seq<char> {
    if !supported {
        "unsupported_target"@
    } else {
        match layout {
            Ok(_) => "ok"@,
            Err(code) => code@,
        }
    }
}

/// The version, and the directories with their state, or why there are none.
pub fn status_report(
    version: serde_json::Value,
    layout: Result<LayoutReport, String>,
) -> (report: serde_json::Value)
    ensures
        json_view(report) == Json::Object(status_fields(version, layout)),
{
    let mut report = json_null();
    let mut state = json_null();
    set_field(&mut report, "version", version);
    match layout {
        Ok(found) => {
            set_field(&mut report, "layout", found.layout);
            set_field(&mut state, "dataDir", found.data_dir);
            set_field(&mut state, "stateDir", found.state_dir);
            set_field(&mut state, "runtimeDir", found.runtime_dir);
            let record = if found.installation_record {
                "available"
            } else {
                "missing"
            };
            set_field(&mut state, "installationRecord", json_text(record));
            assert(json_view(state)->Object_0 =~= state_fields(found));
            set_field(&mut report, "state", state);
        },
        Err(code) => {
            set_field(&mut report, "layout", json_null());
            set_field(&mut state, "layout", json_text("unavailable"));
            assert(json_view(state)->Object_0 =~= map!["layout"@ => Json::Text("unavailable"@)]);
            set_field(&mut report, "state", state);
            set_field(&mut report, "diagnostic", json_text(code.as_str()));
        },
    }
    assert(json_view(report)->Object_0 =~= status_fields(version, layout));
    report
}

/// The status report, and whether this target works: `supported`, and a code that is
/// `ok`, `unsupported_target`, or why there are no directories.
pub fn doctor_report(
    version: serde_json::Value,
    layout: Result<LayoutReport, String>,
    supported: bool,
) -> (report: serde_json::Value)
    ensures
        json_view(report) == Json::Object(
            status_fields(version, layout).insert("supported"@, Json::Bool(supported)).insert(
                "code"@,
                Json::Text(doctor_code(layout, supported)),
            ),
        ),
{
    let mut report = status_report(version, layout);
    proof {
        lemma_field_names();
    }
    assert(json_get(json_view(report), "diagnostic"@) == (match layout {
        Ok(_) => None::<Json>,
        Err(code) => Some(Json::Text(code@)),
    }));
    let mut code = "ok".to_owned();
    if let Some(field) = get_field(&report, "diagnostic") {
        if let Some(diagnostic) = field.as_str() {
            code = diagnostic.to_owned();
        }
    }
    if !supported {
        code = "unsupported_target".to_owned();
    }
    set_field(&mut report, "supported", json_bool(supported));
    set_field(&mut report, "code", json_text(code.as_str()));
    report
}

proof fn lemma_field_names()
    ensures
        "diagnostic"@ != "version"@,
        "diagnostic"@ != "layout"@,
        "diagnostic"@ != "state"@,
{
    reveal_strlit("diagnostic");
    reveal_strlit("version");
    reveal_strlit("layout");
    reveal_strlit("state");
    assert("diagnostic"@.len() == 10);
    assert("version"@.len() == 7);
    assert("layout"@.len() == 6);
    assert("state"@.len() == 5);
}

proof fn lemma_report_fields_differ()
    ensures
        "version"@.len() == 7,
        "layout"@.len() == 6,
        "state"@.len() == 5,
        "diagnostic"@.len() == 10,
        "supported"@.len() == 9,
        "code"@.len() == 4,
        "dataDir"@.len() == 7,
        "stateDir"@.len() == 8,
        "runtimeDir"@.len() == 10,
        "installationRecord"@.len() == 18,
{
    reveal_strlit("version");
    reveal_strlit("layout");
    reveal_strlit("state");
    reveal_strlit("diagnostic");
    reveal_strlit("supported");
    reveal_strlit("code");
    reveal_strlit("dataDir");
    reveal_strlit("stateDir");
    reveal_strlit("runtimeDir");
    reveal_strlit("installationRecord");
}

/// The status report holds the version; where the directories are known, these and the state
/// of each, and whether the installation is recorded; where they are not, why.
pub proof fn law_status_tells_the_state(
    version: serde_json::Value,
    layout: Result<LayoutReport, String>,
    report: serde_json::Value,
)
    requires
        call_ensures(status_report, (version, layout), report),
    ensures
        ({
            let told = json_view(report);
            let state = json_get(told, "state"@);
            &&& json_get(told, "version"@) == Some(json_view(version))
            &&& state is Some
            &&& match layout {
                Ok(found) => {
                    &&& json_get(told, "layout"@) == Some(json_view(found.layout))
                    &&& json_get(told, "diagnostic"@) is None
                    &&& json_get(state->0, "dataDir"@) == Some(json_view(found.data_dir))
                    &&& json_get(state->0, "stateDir"@) == Some(json_view(found.state_dir))
                    &&& json_get(state->0, "runtimeDir"@) == Some(json_view(found.runtime_dir))
                    &&& json_get(state->0, "installationRecord"@) == Some(
                        Json::Text(
                            if found.installation_record {
                                "available"@
                            } else {
                                "missing"@
                            },
                        ),
                    )
                },
                Err(code) => {
                    &&& json_get(told, "layout"@) == Some(Json::Null)
                    &&& json_get(told, "diagnostic"@) == Some(Json::Text(code@))
                    &&& json_get(state->0, "layout"@) == Some(Json::Text("unavailable"@))
                },
            }
        }),
{
    lemma_report_fields_differ();
    reveal_strlit("dataDir");
    reveal_strlit("stateDir");
}

/// The doctor adds to the status whether the target works, and a code: that it does not,
/// or else why there are no directories, or else that all is well. All else of the status
/// stays.
pub proof fn law_doctor_says_whether_the_target_works(
    version: serde_json::Value,
    layout: Result<LayoutReport, String>,
    supported: bool,
    status: serde_json::Value,
    report: serde_json::Value,
)
    requires
        call_ensures(status_report, (version, layout), status),
        call_ensures(doctor_report, (version, layout, supported), report),
    ensures
        json_get(json_view(report), "supported"@) == Some(Json::Bool(supported)),
        !supported ==> json_get(json_view(report), "code"@) == Some(
            Json::Text("unsupported_target"@),
        ),
        supported && layout is Ok ==> json_get(json_view(report), "code"@) == Some(
            Json::Text("ok"@),
        ),
        supported ==> (layout matches Err(code) ==> json_get(json_view(report), "code"@) == Some(
            Json::Text(code@),
        )),
        forall|key: Seq<char>|
            key != "supported"@ && key != "code"@ ==> #[trigger] json_get(json_view(report), key)
                == json_get(json_view(status), key),
{
    lemma_report_fields_differ();
}

} // verus!
