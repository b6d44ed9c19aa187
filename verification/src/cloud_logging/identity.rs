//! What the process reports itself as.

use vstd::prelude::*;
use vstd::string::*;

use crate::text::{
    assigns, attribute_value, find_attribute, first_assignment_is_found, is_bare, is_blank,
    other_assignments_are_passed_over, split, text_of,
};

verus! {

/// A service and its version.
pub struct Service {
    pub name: Seq<char>,
    pub version: Seq<char>,
}

/// Identifies this process to the error reports, which group by service and
/// track whether a group came back in a version.
#[derive(Debug, PartialEq, Eq)]
pub struct ServiceContext {
    pub service: String,
    pub version: String,
}

impl View for ServiceContext {
    type V = Service;

    open spec fn view(&self) -> Service {
        Service { name: self.service@, version: self.version@ }
    }
}

impl Clone for ServiceContext {
    fn clone(&self) -> (r: Self)
        ensures
            r == *self,
    {
        ServiceContext { service: self.service.clone(), version: self.version.clone() }
    }
}

/// The settings of a deployment, each as its environment variable gives it.
#[derive(Debug)]
pub struct Deployment {
    /// `OTEL_SERVICE_NAME`
    pub service_name: Option<String>,
    /// `OTEL_RESOURCE_ATTRIBUTES`
    pub resource_attributes: Option<String>,
    /// `SERVICE_VERSION`
    pub service_version: Option<String>,
    /// `GOOGLE_CLOUD_PROJECT`
    pub project: Option<String>,
}

/// The name of the attribute that names the service.
pub const SERVICE_NAME_ATTRIBUTE: &'static str = "service.name";

/// The service name in a list of resource attributes: the value of its first
/// `service.name`, unless that is empty.
pub open spec fn resource_service_name(attributes: Option<Seq<char>>) -> Option<Seq<char>> {
    match attributes {
        None => None,
        Some(list) => match attribute_value(split(list, ','), SERVICE_NAME_ATTRIBUTE@) {
            Some(value) if value.len() > 0 => Some(value),
            _ => None,
        },
    }
}

/// The service that a deployment runs: named by its own setting, else by its
/// resource attributes, else by the binary; with the version of its own
/// setting, else that of the binary.
pub open spec fn deployed_service(binary: Service, deployment: Deployment) -> Service {
    Service {
        name: match text_of(deployment.service_name) {
            Some(name) => name,
            None => match resource_service_name(text_of(deployment.resource_attributes)) {
                Some(name) => name,
                None => binary.name,
            },
        },
        version: match text_of(deployment.service_version) {
            Some(version) => version,
            None => binary.version,
        },
    }
}

/// What is known of the identity of a process.
pub struct Identity {
    /// What this library is, for a process that says nothing.
    pub package: Service,
    /// The service, once it is settled.
    pub service: Option<Service>,
    /// The cloud project, once it is settled; a process may have none.
    pub project: Option<Option<Seq<char>>>,
}

impl Identity {
    /// The service that is reported.
    pub open spec fn reported(self) -> Service {
        match self.service {
            Some(service) => service,
            None => self.package,
        }
    }

    /// The identity with its service settled.
    pub open spec fn settled(self) -> Identity {
        Identity { service: Some(self.reported()), ..self }
    }

    /// The cloud project, if it is known.
    pub open spec fn known_project(self) -> Option<Seq<char>> {
        match self.project {
            Some(project) => project,
            None => None,
        }
    }

    /// The identity after the binary has said what it is. What was settled
    /// before stays.
    pub open spec fn configured(self, binary: Service, deployment: Deployment) -> Identity {
        Identity {
            package: self.package,
            service: if self.service is Some {
                self.service
            } else {
                Some(deployed_service(binary, deployment))
            },
            project: if self.project is Some {
                self.project
            } else {
                Some(text_of(deployment.project))
            },
        }
    }

    /// The resource name of a trace, where the project is known.
    pub open spec fn trace_name(self, trace_id: Seq<char>) -> Option<Seq<char>> {
        match self.known_project() {
            Some(project) => Some("projects/"@ + project + "/traces/"@ + trace_id),
            None => None,
        }
    }
}

/// The identity of a process: its service and its cloud project. Each is
/// settled once, and kept from then on.
#[derive(Debug)]
pub struct ProcessIdentity {
    pub package: ServiceContext,
    pub service: Option<ServiceContext>,
    pub project: Option<Option<String>>,
}

impl View for ProcessIdentity {
    type V = Identity;

    open spec fn view(&self) -> Identity {
        Identity {
            package: self.package@,
            service: match self.service {
                Some(service) => Some(service@),
                None => None,
            },
            project: match self.project {
                Some(project) => Some(text_of(project)),
                None => None,
            },
        }
    }
}

impl ProcessIdentity {
    /// An identity of which nothing is settled.
    pub fn new(package: ServiceContext) -> (r: Self)
        ensures
            r@ == (Identity { package: package@, service: None, project: None }),
    {
        ProcessIdentity { package, service: None, project: None }
    }
}

/// The service name in the `OTEL_RESOURCE_ATTRIBUTES` of a deployment, which
/// are comma-separated `key=value` pairs.
///
/// This is where a deployment sets the name; `OTEL_SERVICE_NAME` is the
/// shorthand that overrides it.
pub fn service_name_from_resource_attributes(attributes: Option<&String>) -> (r: Option<String>)
    ensures
        text_of(r) == resource_service_name(
            match attributes {
                Some(list) => Some(list@),
                None => None,
            },
        ),
{
    let list: &String = match attributes {
        Some(list) => list,
        None => {
            return None;
        },
    };
    match find_attribute(list.as_str(), SERVICE_NAME_ATTRIBUTE) {
        Some(value) => if value.as_str().unicode_len() > 0 {
            Some(value)
        } else {
            None
        },
        None => None,
    }
}

/// Records what this binary reports itself as, unless that is settled.
///
/// A deployment that names itself for traces is named the same way for errors:
/// the name of the binary is shared by every network and role, and would put
/// them all into one service.
pub fn set_service_context(
    identity: &mut ProcessIdentity,
    service: String,
    version: String,
    deployment: Deployment,
)
    ensures
        final(identity)@ == old(identity)@.configured(
            (Service { name: service@, version: version@ }),
            deployment,
        ),
{
    let name: String = match deployment.service_name {
        Some(name) => name,
        None => match service_name_from_resource_attributes(
            deployment.resource_attributes.as_ref(),
        ) {
            Some(name) => name,
            None => service,
        },
    };
    let version: String = match deployment.service_version {
        Some(version) => version,
        None => version,
    };
    if identity.service.is_none() {
        identity.service = Some(ServiceContext { service: name, version });
    }
    if identity.project.is_none() {
        identity.project = Some(deployment.project);
    }
}

/// The service that this process reports. One that was not set is settled as
/// that of the package.
pub fn service_context(identity: &mut ProcessIdentity) -> (r: ServiceContext)
    ensures
        r@ == old(identity)@.reported(),
        final(identity)@ == old(identity)@.settled(),
{
    if identity.service.is_none() {
        identity.service = Some(identity.package.clone());
    }
    match &identity.service {
        Some(service) => service.clone(),
        None => identity.package.clone(),
    }
}

/// The resource name of a trace, or none when the project is unknown: a bare
/// trace id links nowhere.
pub fn trace_field(identity: &ProcessIdentity, trace_id: &str) -> (r: Option<String>)
    ensures
        text_of(r) == identity@.trace_name(trace_id@),
{
    match &identity.project {
        Some(Some(project)) => {
            let mut name: String = "projects/".to_owned();
            name.append(project.as_str());
            name.append("/traces/");
            name.append(trace_id);
            Some(name)
        },
        _ => None,
    }
}

/// Law: the identity is settled by whoever comes first. Setting it again
/// changes nothing.
pub proof fn first_identity_wins(
    identity: Identity,
    first: Service,
    first_deployment: Deployment,
    second: Service,
    second_deployment: Deployment,
)
    ensures
        identity.configured(first, first_deployment).configured(second, second_deployment)
            == identity.configured(first, first_deployment),
{
}

/// Law: a process that was asked for its service before it said what it is
/// keeps that answer.
pub proof fn reported_service_is_kept(identity: Identity, binary: Service, deployment: Deployment)
    ensures
        identity.settled().reported() == identity.reported(),
        identity.settled().settled() == identity.settled(),
        identity.settled().configured(binary, deployment).reported() == identity.reported(),
        identity.settled().configured(binary, deployment).project == identity.configured(
            binary,
            deployment,
        ).project,
{
}

/// Law: a fresh process reports what its deployment says.
pub proof fn fresh_process_reports_its_deployment(
    package: Service,
    binary: Service,
    deployment: Deployment,
)
    ensures
        ({
            let fresh = Identity { package, service: None, project: None };
            &&& fresh.reported() == package
            &&& fresh.configured(binary, deployment).reported() == deployed_service(
                binary,
                deployment,
            )
            &&& fresh.configured(binary, deployment).known_project() == text_of(deployment.project)
        }),
{
}

/// Law: a trace is named exactly where the project is known, and two traces of
/// a process never share a name.
pub proof fn trace_names_are_distinct(identity: Identity, a: Seq<char>, b: Seq<char>)
    ensures
        identity.trace_name(a) is Some <==> identity.known_project() is Some,
        identity.trace_name(a) is Some && identity.trace_name(a) == identity.trace_name(b) ==> a
            == b,
{
    if identity.trace_name(a) is Some && identity.trace_name(a) == identity.trace_name(b) {
        let before = "projects/"@ + identity.known_project()->0 + "/traces/"@;
        assert((before + a).skip(before.len() as int) =~= a);
        assert((before + b).skip(before.len() as int) =~= b);
    }
}

/// Law: a process of which nothing is settled takes its name from the setting
/// for it whenever that is set, whatever the resource attributes and the binary
/// say. Without the setting it takes it from the resource attributes, where they
/// name a service, and only where neither does from the binary. Its version is
/// the one that is set, or else that of the binary.
pub proof fn deployment_names_the_service(
    identity: Identity,
    binary: Service,
    deployment: Deployment,
)
    requires
        identity.service is None,
    ensures
        ({
            let reported = identity.configured(binary, deployment).reported();
            &&& deployment.service_name matches Some(name) ==> reported.name == name@
            &&& deployment.service_name is None ==> match deployment.resource_attributes {
                Some(list) => match resource_service_name(Some(list@)) {
                    Some(name) => reported.name == name,
                    None => reported.name == binary.name,
                },
                None => reported.name == binary.name,
            }
            &&& deployment.service_version matches Some(version) ==> reported.version == version@
            &&& deployment.service_version is None ==> reported.version == binary.version
        }),
{
}

/// Law: in a list of resource attributes, the first pair with the key
/// `service.name` names the service, with the white space around the key and
/// the value left out. An empty value names none, whatever follows.
pub proof fn first_service_name_is_taken(
    piece: Seq<char>,
    rest: Seq<char>,
    before: Seq<char>,
    value: Seq<char>,
    after: Seq<char>,
)
    requires
        !piece.contains(','),
        is_blank(before) && is_bare(value) && is_blank(after),
        assigns(piece, "service.name"@, before + value + after),
    ensures
        value.len() > 0 ==> resource_service_name(Some(piece)) == Some(value),
        value.len() > 0 ==> resource_service_name(Some(piece + seq![','] + rest)) == Some(value),
        value.len() == 0 ==> resource_service_name(Some(piece)) is None,
        value.len() == 0 ==> resource_service_name(Some(piece + seq![','] + rest)) is None,
{
    reveal_strlit("service.name");
    assert(!"service.name"@.contains('='));
    first_assignment_is_found(piece, rest, "service.name"@, before, value, after);
}

/// Law: a pair with another key, and what is no pair, names no service and is
/// passed over. No attributes name none.
pub proof fn other_attributes_name_no_service(piece: Seq<char>, rest: Seq<char>)
    requires
        !piece.contains(','),
        forall|value: Seq<char>| !#[trigger] assigns(piece, "service.name"@, value),
    ensures
        resource_service_name(Some(piece)) is None,
        resource_service_name(Some(piece + seq![','] + rest)) == resource_service_name(Some(rest)),
        resource_service_name(None) is None,
{
    other_assignments_are_passed_over(piece, rest, "service.name"@);
}

/// Law: the service and the project are settled each on its own. What is not
/// settled is taken from the deployment, even where the other is settled
/// already, and what is settled stays.
pub proof fn service_and_project_are_settled_apart(
    identity: Identity,
    binary: Service,
    deployment: Deployment,
)
    ensures
        identity.project is None ==> identity.configured(binary, deployment).project == Some(
            match deployment.project {
                Some(project) => Some(project@),
                None => None,
            },
        ),
        identity.project is Some ==> identity.configured(binary, deployment).project
            == identity.project,
        identity.service is None ==> identity.configured(binary, deployment).service is Some,
        identity.service is Some ==> identity.configured(binary, deployment).service
            == identity.service,
        identity.configured(binary, deployment).package == identity.package,
        identity.settled().project == identity.project,
        identity.settled().package == identity.package,
        identity.settled().service == Some(
            match identity.service {
                Some(service) => service,
                None => identity.package,
            },
        ),
        identity.reported() == identity.settled().service->0,
{
}

/// Law: the name of a trace leads through the project that is settled to the
/// trace, and there is none where no project is settled, or where the process
/// was found to have none.
pub proof fn trace_is_named_within_its_project(identity: Identity, trace_id: Seq<char>)
    ensures
        identity.trace_name(trace_id) == match identity.project {
            Some(Some(project)) => Some("projects/"@ + project + "/traces/"@ + trace_id),
            _ => None,
        },
{
}

/// Law: what is known of a process is what it has settled: nothing is lost, and
/// what is not settled is not known.
pub proof fn identity_is_what_is_settled(process: ProcessIdentity, context: ServiceContext)
    ensures
        context@.name == context.service@,
        context@.version == context.version@,
        process@.package == process.package@,
        process.service is None <==> process@.service is None,
        process.service matches Some(service) ==> process@.service == Some(service@),
        process.project is None <==> process@.project is None,
        process.project matches Some(project) ==> process@.project == Some(
            match project {
                Some(name) => Some(name@),
                None => None,
            },
        ),
{
}

}
