//! The identity of the module and what it declares to its host.

use vstd::prelude::*;

use crate::contracts::{EMAIL_DISPATCH_OBSERVED_EVENT, EMAIL_RECEIPT_OBSERVED_EVENT,
    ORGANIZATION_INVITATION_ACCEPTED_EVENT, ORGANIZATION_INVITATION_REVOKED_EVENT,
    RUNTIME_FUNCTION_TERMINAL_EVENT};
use crate::events::{DISPATCH_HANDLER, INVITATION_ACCEPTED_HANDLER, INVITATION_REVOKED_HANDLER,
    RECEIPT_HANDLER, TERMINAL_HANDLER};
use crate::text::texts;

verus! {

pub const MODULE_ID: &'static str = "lenso/notification";

pub const MODULE_NAME: &'static str = "notification";

pub const NOTIFICATION_DELIVERIES_READ: &'static str = "notification.deliveries.read";

pub const NOTIFICATION_DELIVERIES_RETRY: &'static str = "notification.deliveries.retry";

pub const MODULE_SUMMARY: &'static str =
    "Transactional notification intents, delivery attempts, receipts, and final state";

/// A module that must be there, with what it must offer.
#[derive(Debug)]
pub struct ModuleRequirement {
    pub module_id: String,
    pub version_requirement: String,
    pub capabilities: Vec<String>,
    pub optional: bool,
}

/// What a configured value is.
#[derive(Debug, Clone, Copy, PartialEq, Eq, Structural)]
pub enum ModuleConfigFieldType {
    Text,
}

/// Where a configured value comes from.
#[derive(Debug, Clone, Copy, PartialEq, Eq, Structural)]
pub enum ModuleConfigScope {
    Environment,
}

/// Whether a configured value can change while the module runs.
#[derive(Debug, Clone, Copy, PartialEq, Eq, Structural)]
pub enum ModuleConfigMutability {
    Static,
}

/// When a changed value takes effect.
#[derive(Debug, Clone, Copy, PartialEq, Eq, Structural)]
pub enum ModuleConfigActivation {
    Restart,
}

/// A configured value.
#[derive(Debug)]
pub struct ModuleConfigField {
    pub key: String,
    pub field_type: ModuleConfigFieldType,
    pub required: bool,
    pub scope: ModuleConfigScope,
    pub sensitive: bool,
    pub secret_reference: bool,
    pub mutability: ModuleConfigMutability,
    pub activation: ModuleConfigActivation,
    pub read_capability: Option<String>,
    pub write_capability: Option<String>,
    pub default: Option<String>,
    pub validation: Option<String>,
}

impl ModuleConfigField {
    /// Whether this is the field of the key under which snapshots are protected:
    /// a secret text that the environment must give before the module starts.
    pub open spec fn declares_protection_key(self) -> bool {
        &&& self.key@ == "snapshot_protection_key"@
        &&& self.field_type is Text
        &&& self.required
        &&& self.scope is Environment
        &&& self.sensitive
        &&& self.secret_reference
        &&& self.mutability is Static
        &&& self.activation is Restart
        &&& self.read_capability is None
        &&& self.write_capability is None
        &&& self.default is None
        &&& self.validation is None
    }
}

/// When a migration is applied.
#[derive(Debug, Clone, Copy, PartialEq, Eq, Structural)]
pub enum ModuleMigrationActivation {
    BeforeActivation,
}

#[derive(Debug)]
pub struct ModuleMigrationDeclaration {
    pub migration_id: String,
    pub order: u32,
    pub store: String,
    pub destructive: bool,
    pub reversible: bool,
    pub activation: ModuleMigrationActivation,
}

#[derive(Debug, Clone, Copy, PartialEq, Eq, Structural)]
pub enum ModuleHttpMethod {
    Get,
    Post,
}

#[derive(Debug)]
pub struct ModuleHttpRoute {
    pub method: ModuleHttpMethod,
    pub path: String,
    pub capability: String,
    pub display_name: String,
    pub story_title: String,
}

impl ModuleHttpRoute {
    /// Whether this is the given route, titled by its display name.
    pub open spec fn is(
        self,
        method: ModuleHttpMethod,
        path: Seq<char>,
        capability: Seq<char>,
        display_name: Seq<char>,
    ) -> bool {
        &&& self.method == method
        &&& self.path@ == path
        &&& self.capability@ == capability
        &&& self.display_name@ == display_name
        &&& self.story_title@ == display_name
    }
}

#[derive(Debug)]
pub struct RuntimeFunctionDeclaration {
    pub name: String,
    pub version: u32,
    pub queue: String,
    pub input_schema: String,
    pub max_attempts: u32,
    pub initial_delay_ms: u64,
    pub operation: Option<String>,
}

#[derive(Debug)]
pub struct ScheduledFunctionDeclaration {
    pub name: String,
    pub function_name: String,
    pub cron: String,
    pub input_limit: u32,
}

#[derive(Debug)]
pub struct EventHandlerDeclaration {
    pub name: String,
    pub event_name: String,
}

impl EventHandlerDeclaration {
    /// Whether this handler has the given name and event.
    pub open spec fn is(self, name: Seq<char>, event_name: Seq<char>) -> bool {
        self.name@ == name && self.event_name@ == event_name
    }
}

#[derive(Debug)]
pub struct ConsoleLabel {
    pub id: String,
    pub label: String,
    pub icon: String,
}

impl ConsoleLabel {
    /// Whether this label has the given parts.
    pub open spec fn is(self, id: Seq<char>, label: Seq<char>, icon: Seq<char>) -> bool {
        self.id@ == id && self.label@ == label && self.icon@ == icon
    }
}

/// How a page of the console is presented.
#[derive(Debug)]
pub enum ConsoleSurfacePresentation {
    /// By an ECMAScript module with the given entry.
    Esm { entry: String },
}

/// A page of the console, with its place in the navigation.
#[derive(Debug)]
pub struct ConsoleSurface {
    pub name: String,
    pub label: String,
    pub route: String,
    pub presentation: ConsoleSurfacePresentation,
    pub icon: String,
    pub required_capabilities: Vec<String>,
    pub workspace: ConsoleLabel,
    pub group: ConsoleLabel,
    pub group_order: i32,
    pub order: i32,
}

/// Everything that the module declares.
#[derive(Debug)]
pub struct ModuleManifest {
    pub id: String,
    pub summary: String,
    pub capabilities: Vec<String>,
    pub requires_modules: Vec<ModuleRequirement>,
    pub config: Vec<ModuleConfigField>,
    pub migrations: Vec<ModuleMigrationDeclaration>,
    pub http_routes: Vec<ModuleHttpRoute>,
    pub functions: Vec<RuntimeFunctionDeclaration>,
    pub schedules: Vec<ScheduledFunctionDeclaration>,
    pub workflows: Vec<String>,
    pub event_handlers: Vec<EventHandlerDeclaration>,
    pub console: Vec<ConsoleSurface>,
}

/// Whether these are the routes of the module.
pub open spec fn declares_routes(routes: Seq<ModuleHttpRoute>) -> bool {
    &&& routes.len() == 3
    &&& routes[0].is(
        ModuleHttpMethod::Get,
        "/v1/notification/console/deliveries"@,
        NOTIFICATION_DELIVERIES_READ@,
        "List notification deliveries"@,
    )
    &&& routes[1].is(
        ModuleHttpMethod::Get,
        "/v1/notification/console/deliveries/{delivery_id}"@,
        NOTIFICATION_DELIVERIES_READ@,
        "Get notification delivery"@,
    )
    &&& routes[2].is(
        ModuleHttpMethod::Post,
        "/v1/notification/console/deliveries/{delivery_id}/retry"@,
        NOTIFICATION_DELIVERIES_RETRY@,
        "Retry notification delivery"@,
    )
}

fn route(method: ModuleHttpMethod, path: &str, capability: &str, display_name: &str) -> (declared:
    ModuleHttpRoute)
    ensures
        declared.is(method, path@, capability@, display_name@),
{
    ModuleHttpRoute {
        method,
        path: path.to_owned(),
        capability: capability.to_owned(),
        display_name: display_name.to_owned(),
        story_title: display_name.to_owned(),
    }
}

/// The routes of the module.
pub fn http_routes() -> (routes: Vec<ModuleHttpRoute>)
    ensures
        declares_routes(routes@),
{
    vec![
        route(
            ModuleHttpMethod::Get,
            "/v1/notification/console/deliveries",
            NOTIFICATION_DELIVERIES_READ,
            "List notification deliveries",
        ),
        route(
            ModuleHttpMethod::Get,
            "/v1/notification/console/deliveries/{delivery_id}",
            NOTIFICATION_DELIVERIES_READ,
            "Get notification delivery",
        ),
        route(
            ModuleHttpMethod::Post,
            "/v1/notification/console/deliveries/{delivery_id}/retry",
            NOTIFICATION_DELIVERIES_RETRY,
            "Retry notification delivery",
        ),
    ]
}

/// Whether these are the event handlers of the module.
pub open spec fn declares_handlers(handlers: Seq<EventHandlerDeclaration>) -> bool {
    &&& handlers.len() == 5
    &&& handlers[0].is(DISPATCH_HANDLER@, EMAIL_DISPATCH_OBSERVED_EVENT@)
    &&& handlers[1].is(RECEIPT_HANDLER@, EMAIL_RECEIPT_OBSERVED_EVENT@)
    &&& handlers[2].is(TERMINAL_HANDLER@, RUNTIME_FUNCTION_TERMINAL_EVENT@)
    &&& handlers[3].is(INVITATION_ACCEPTED_HANDLER@, ORGANIZATION_INVITATION_ACCEPTED_EVENT@)
    &&& handlers[4].is(INVITATION_REVOKED_HANDLER@, ORGANIZATION_INVITATION_REVOKED_EVENT@)
}

fn event_handler(name: &str, event_name: &str) -> (declared: EventHandlerDeclaration)
    ensures
        declared.is(name@, event_name@),
{
    EventHandlerDeclaration { name: name.to_owned(), event_name: event_name.to_owned() }
}

fn console_label(id: &str, label: &str, icon: &str) -> (declared: ConsoleLabel)
    ensures
        declared.is(id@, label@, icon@),
{
    ConsoleLabel { id: id.to_owned(), label: label.to_owned(), icon: icon.to_owned() }
}

impl ModuleManifest {
    /// Whether this declares the module, with its dispatch function under the
    /// given name on the given queue.
    pub open spec fn declares(self, dispatch_function: Seq<char>, dispatch_queue: Seq<char>) -> bool {
        &&& self.id@ == MODULE_ID@
        &&& self.summary@ == MODULE_SUMMARY@
        &&& texts(self.capabilities@) == seq![
            NOTIFICATION_DELIVERIES_READ@,
            NOTIFICATION_DELIVERIES_RETRY@,
        ]
        &&& self.requires_modules@.len() == 1
        &&& self.requires_modules@[0].module_id@ == "lenso/email-provider"@
        &&& self.requires_modules@[0].version_requirement@ == "*"@
        &&& texts(self.requires_modules@[0].capabilities@) == seq!["email.dispatch"@]
        &&& !self.requires_modules@[0].optional
        &&& self.config@.len() == 1
        &&& self.config@[0].declares_protection_key()
        &&& self.migrations@.len() == 1
        &&& self.migrations@[0].migration_id@ == "notification/0001_create_notification_schema"@
        &&& self.migrations@[0].order == 1
        &&& self.migrations@[0].store@ == "postgres"@
        &&& !self.migrations@[0].destructive
        &&& !self.migrations@[0].reversible
        &&& self.migrations@[0].activation is BeforeActivation
        &&& declares_routes(self.http_routes@)
        &&& self.functions@.len() == 1
        &&& self.functions@[0].name@ == dispatch_function
        &&& self.functions@[0].version == 1
        &&& self.functions@[0].queue@ == dispatch_queue
        &&& self.functions@[0].input_schema@
            == "contracts/runtime/notification.dispatch-due.v1.schema.json"@
        &&& self.functions@[0].max_attempts == 3
        &&& self.functions@[0].initial_delay_ms == 5_000
        &&& self.functions@[0].operation is None
        &&& self.schedules@.len() == 1
        &&& self.schedules@[0].name@ == "notification-dispatch-due"@
        &&& self.schedules@[0].function_name@ == dispatch_function
        &&& self.schedules@[0].cron@ == "* * * * *"@
        &&& self.schedules@[0].input_limit == 25
        &&& self.workflows@.len() == 0
        &&& declares_handlers(self.event_handlers@)
        &&& self.console@.len() == 1
        &&& self.console@[0].declares_deliveries()
    }
}

impl ConsoleSurface {
    /// Whether this is the page of deliveries.
    pub open spec fn declares_deliveries(self) -> bool {
        &&& self.name@ == "deliveries"@
        &&& self.label@ == "Deliveries"@
        &&& self.route@ == "/notifications/deliveries"@
        &&& self.presentation matches ConsoleSurfacePresentation::Esm { entry } && entry@
            == "index.js"@
        &&& self.icon@ == "activity"@
        &&& texts(self.required_capabilities@) == seq![NOTIFICATION_DELIVERIES_READ@]
        &&& self.workspace.is("notifications"@, "Notifications"@, "workflow"@)
        &&& self.group.is("transactional"@, "Transactional"@, "activity"@)
        &&& self.group_order == 10
        &&& self.order == 10
    }
}

fn deliveries_surface() -> (surface: ConsoleSurface)
    ensures
        surface.declares_deliveries(),
{
    let required_capabilities = vec![NOTIFICATION_DELIVERIES_READ.to_owned()];
    assert(texts(required_capabilities@) =~= seq![NOTIFICATION_DELIVERIES_READ@]);
    ConsoleSurface {
        name: "deliveries".to_owned(),
        label: "Deliveries".to_owned(),
        route: "/notifications/deliveries".to_owned(),
        presentation: ConsoleSurfacePresentation::Esm { entry: "index.js".to_owned() },
        icon: "activity".to_owned(),
        required_capabilities,
        workspace: console_label("notifications", "Notifications", "workflow"),
        group: console_label("transactional", "Transactional", "activity"),
        group_order: 10,
        order: 10,
    }
}

/// What the module declares to a host that runs its dispatch function under
/// the given name on the given queue.
pub fn manifest(dispatch_function: &str, dispatch_queue: &str) -> (declared: ModuleManifest)
    ensures
        declared.declares(dispatch_function@, dispatch_queue@),
{
    let capabilities = vec![
        NOTIFICATION_DELIVERIES_READ.to_owned(),
        NOTIFICATION_DELIVERIES_RETRY.to_owned(),
    ];
    assert(texts(capabilities@) =~= seq![
        NOTIFICATION_DELIVERIES_READ@,
        NOTIFICATION_DELIVERIES_RETRY@,
    ]);
    let dispatch_capability = vec!["email.dispatch".to_owned()];
    assert(texts(dispatch_capability@) =~= seq!["email.dispatch"@]);
    ModuleManifest {
        id: MODULE_ID.to_owned(),
        summary: MODULE_SUMMARY.to_owned(),
        capabilities,
        requires_modules: vec![
            ModuleRequirement {
                module_id: "lenso/email-provider".to_owned(),
                version_requirement: "*".to_owned(),
                capabilities: dispatch_capability,
                optional: false,
            },
        ],
        config: vec![
            ModuleConfigField {
                key: "snapshot_protection_key".to_owned(),
                field_type: ModuleConfigFieldType::Text,
                required: true,
                scope: ModuleConfigScope::Environment,
                sensitive: true,
                secret_reference: true,
                mutability: ModuleConfigMutability::Static,
                activation: ModuleConfigActivation::Restart,
                read_capability: None,
                write_capability: None,
                default: None,
                validation: None,
            },
        ],
        migrations: vec![
            ModuleMigrationDeclaration {
                migration_id: "notification/0001_create_notification_schema".to_owned(),
                order: 1,
                store: "postgres".to_owned(),
                destructive: false,
                reversible: false,
                activation: ModuleMigrationActivation::BeforeActivation,
            },
        ],
        http_routes: http_routes(),
        functions: vec![
            RuntimeFunctionDeclaration {
                name: dispatch_function.to_owned(),
                version: 1,
                queue: dispatch_queue.to_owned(),
                input_schema: "contracts/runtime/notification.dispatch-due.v1.schema.json".to_owned(),
                max_attempts: 3,
                initial_delay_ms: 5_000,
                operation: None,
            },
        ],
        schedules: vec![
            ScheduledFunctionDeclaration {
                name: "notification-dispatch-due".to_owned(),
                function_name: dispatch_function.to_owned(),
                cron: "* * * * *".to_owned(),
                input_limit: 25,
            },
        ],
        workflows: Vec::new(),
        event_handlers: vec![
            event_handler(DISPATCH_HANDLER, EMAIL_DISPATCH_OBSERVED_EVENT),
            event_handler(RECEIPT_HANDLER, EMAIL_RECEIPT_OBSERVED_EVENT),
            event_handler(TERMINAL_HANDLER, RUNTIME_FUNCTION_TERMINAL_EVENT),
            event_handler(INVITATION_ACCEPTED_HANDLER, ORGANIZATION_INVITATION_ACCEPTED_EVENT),
            event_handler(INVITATION_REVOKED_HANDLER, ORGANIZATION_INVITATION_REVOKED_EVENT),
        ],
        console: vec![deliveries_surface()],
    }
}

} // verus!
