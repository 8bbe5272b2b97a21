//! The isolation document as JSON text, in the schema that the container
//! runtime reads.
//!
//! The text is made in two steps. The first puts every string of the
//! document into its JSON literal. The second lays the document out: it
//! writes the keys, the numbers and the structure, and sets each literal
//! in its place as it is.

use vstd::prelude::*;
use vstd::string::*;
use crate::json::{
    bool_literal,
    bool_text,
    decimal,
    decimal_text,
    json_array,
    json_quoted,
    quote,
    quote_all,
    quoted_all,
    render_array,
};
use crate::texts::text_views;
use crate::runtime_spec::{
    mount_views,
    CapabilitySets,
    CapabilityView,
    IdMapping,
    MountPoint,
    MountView,
    NamespaceKind,
    ProcessSpec,
    ProcessView,
    ResourceLimits,
    ResourceView,
    RuntimeSpec,
    RuntimeSpecView,
};

verus! {

/// The capability sets with every name in its JSON literal.
pub open spec fn quoted_capabilities(sets: CapabilityView) -> CapabilityView {
    CapabilityView {
        bounding: quoted_all(sets.bounding),
        effective: quoted_all(sets.effective),
        inheritable: quoted_all(sets.inheritable),
        permitted: quoted_all(sets.permitted),
        ambient: quoted_all(sets.ambient),
    }
}

/// The mount with every string in its JSON literal.
pub open spec fn quoted_mount(mount: MountView) -> MountView {
    MountView {
        destination: json_quoted(mount.destination),
        kind: json_quoted(mount.kind),
        source: json_quoted(mount.source),
        options: quoted_all(mount.options),
    }
}

/// The mounts with every string in its JSON literal.
pub open spec fn quoted_mounts(mounts: Seq<MountView>) -> Seq<MountView> {
    Seq::new(mounts.len(), |i: int| quoted_mount(mounts[i]))
}

/// The document with every string in its JSON literal. Numbers, truth
/// values, namespaces and identity mappings stay as they are.
pub open spec fn quoted_document(doc: RuntimeSpecView) -> RuntimeSpecView {
    RuntimeSpecView {
        oci_version: json_quoted(doc.oci_version),
        process: ProcessView {
            args: quoted_all(doc.process.args),
            env: quoted_all(doc.process.env),
            cwd: json_quoted(doc.process.cwd),
            capabilities: quoted_capabilities(doc.process.capabilities),
            ..doc.process
        },
        root_path: json_quoted(doc.root_path),
        hostname: json_quoted(doc.hostname),
        mounts: quoted_mounts(doc.mounts),
        resources: ResourceView {
            device_access: json_quoted(doc.resources.device_access),
            ..doc.resources
        },
        ..doc
    }
}

/// The JSON object of the capability sets, whose names are literals.
pub open spec fn capabilities_layout(sets: CapabilityView) -> Seq<char> {
    "{\"bounding\":"@ + json_array(sets.bounding) + ",\"effective\":"@ + json_array(
        sets.effective,
    ) + ",\"inheritable\":"@ + json_array(sets.inheritable) + ",\"permitted\":"@ + json_array(
        sets.permitted,
    ) + ",\"ambient\":"@ + json_array(sets.ambient) + "}"@
}

/// The JSON object of the process, whose strings are literals.
pub open spec fn process_layout(process: ProcessView) -> Seq<char> {
    "{\"terminal\":"@ + bool_text(process.terminal) + ",\"user\":{\"uid\":"@ + decimal_text(
        process.uid as nat,
    ) + ",\"gid\":"@ + decimal_text(process.gid as nat) + "},\"args\":"@ + json_array(
        process.args,
    ) + ",\"env\":"@ + json_array(process.env) + ",\"cwd\":"@ + process.cwd
        + ",\"capabilities\":"@ + capabilities_layout(process.capabilities) + "}"@
}

/// The options of a mount as they stand in its object: nothing where the
/// mount has none.
pub open spec fn mount_options_layout(options: Seq<Seq<char>>) -> Seq<char> {
    if options.len() == 0 {
        Seq::empty()
    } else {
        ",\"options\":"@ + json_array(options)
    }
}

/// The JSON object of a mount, whose strings are literals.
pub open spec fn mount_layout(mount: MountView) -> Seq<char> {
    "{\"destination\":"@ + mount.destination + ",\"type\":"@ + mount.kind + ",\"source\":"@
        + mount.source + mount_options_layout(mount.options) + "}"@
}

/// The JSON object of a namespace. The names of the kinds are plain words
/// and stand between quotes as they are.
pub open spec fn namespace_layout(kind: NamespaceKind) -> Seq<char> {
    "{\"type\":\""@ + kind.spec_as_str() + "\"}"@
}

/// The JSON object of an identity mapping.
pub open spec fn mapping_layout(mapping: IdMapping) -> Seq<char> {
    "{\"containerID\":"@ + decimal_text(mapping.container_id as nat) + ",\"hostID\":"@
        + decimal_text(mapping.host_id as nat) + ",\"size\":"@ + decimal_text(mapping.size as nat)
        + "}"@
}

/// The JSON object of the resource limits: one device rule, the memory
/// ceiling and the ceiling on processes.
pub open spec fn resources_layout(limits: ResourceView) -> Seq<char> {
    "{\"devices\":[{\"allow\":"@ + bool_text(limits.devices_allowed) + ",\"access\":"@
        + limits.device_access + "}],\"memory\":{\"limit\":"@ + decimal_text(
        limits.memory_limit_bytes as nat,
    ) + "},\"pids\":{\"limit\":"@ + decimal_text(limits.pids_limit as nat) + "}}"@
}

/// The JSON objects of the mounts, in order.
pub open spec fn mounts_layout(mounts: Seq<MountView>) -> Seq<Seq<char>> {
    Seq::new(mounts.len(), |i: int| mount_layout(mounts[i]))
}

/// The JSON objects of the namespaces, in order.
pub open spec fn namespaces_layout(kinds: Seq<NamespaceKind>) -> Seq<Seq<char>> {
    Seq::new(kinds.len(), |i: int| namespace_layout(kinds[i]))
}

/// The JSON objects of the identity mappings, in order.
pub open spec fn mappings_layout(mappings: Seq<IdMapping>) -> Seq<Seq<char>> {
    Seq::new(mappings.len(), |i: int| mapping_layout(mappings[i]))
}

/// The JSON object of the part of the document that is particular to Linux.
pub open spec fn linux_layout(doc: RuntimeSpecView) -> Seq<char> {
    "{\"resources\":"@ + resources_layout(doc.resources) + ",\"namespaces\":"@ + json_array(
        namespaces_layout(doc.namespaces),
    ) + ",\"uidMappings\":"@ + json_array(mappings_layout(doc.uid_mappings))
        + ",\"gidMappings\":"@ + json_array(mappings_layout(doc.gid_mappings)) + "}"@
}

/// The whole document laid out as JSON text, each of its strings set in
/// its place as it is.
pub open spec fn document_layout(doc: RuntimeSpecView) -> Seq<char> {
    "{\"ociVersion\":"@ + doc.oci_version + ",\"process\":"@ + process_layout(doc.process)
        + ",\"root\":{\"path\":"@ + doc.root_path + ",\"readonly\":"@ + bool_text(
        doc.root_readonly,
    ) + "},\"hostname\":"@ + doc.hostname + ",\"mounts\":"@ + json_array(
        mounts_layout(doc.mounts),
    ) + ",\"linux\":"@ + linux_layout(doc) + "}"@
}

/// The whole document as JSON text.
pub open spec fn document_json(doc: RuntimeSpecView) -> Seq<char> {
    document_layout(quoted_document(doc))
}

/// Returns the capability sets with every name in its JSON literal.
pub fn quote_capabilities(sets: &CapabilitySets) -> (quoted: CapabilitySets)
    ensures
        quoted@ == quoted_capabilities(sets@),
{
    CapabilitySets {
        bounding: quote_all(&sets.bounding),
        effective: quote_all(&sets.effective),
        inheritable: quote_all(&sets.inheritable),
        permitted: quote_all(&sets.permitted),
        ambient: quote_all(&sets.ambient),
    }
}

/// Returns the mount with every string in its JSON literal.
pub fn quote_mount(mount: &MountPoint) -> (quoted: MountPoint)
    ensures
        quoted@ == quoted_mount(mount@),
{
    MountPoint {
        destination: quote(mount.destination.as_str()),
        kind: quote(mount.kind.as_str()),
        source: quote(mount.source.as_str()),
        options: quote_all(&mount.options),
    }
}

/// Returns the mounts with every string in its JSON literal.
pub fn quote_mounts(mounts: &Vec<MountPoint>) -> (quoted: Vec<MountPoint>)
    ensures
        mount_views(quoted@) == quoted_mounts(mount_views(mounts@)),
{
    let mut quoted: Vec<MountPoint> = Vec::new();
    let mut i: usize = 0;
    while i < mounts.len()
        invariant
            i <= mounts@.len(),
            quoted@.len() == i,
            forall|k: int| 0 <= k < i ==> (#[trigger] quoted@[k])@ == quoted_mount(mounts@[k]@),
        decreases mounts@.len() - i,
    {
        quoted.push(quote_mount(&mounts[i]));
        i = i + 1;
    }
    assert(mount_views(quoted@) =~= quoted_mounts(mount_views(mounts@)));
    quoted
}

/// Returns a copy of a list of values that are copied bit by bit.
fn duplicate_plain<T: Copy>(items: &Vec<T>) -> (copy: Vec<T>)
    ensures
        copy@ == items@,
{
    let mut copy: Vec<T> = Vec::new();
    let mut i: usize = 0;
    while i < items.len()
        invariant
            i <= items@.len(),
            copy@ == items@.take(i as int),
        decreases items@.len() - i,
    {
        copy.push(items[i]);
        proof {
            assert(items@.take(i + 1) =~= items@.take(i as int).push(items@[i as int]));
        }
        i = i + 1;
    }
    assert(items@.take(i as int) =~= items@);
    copy
}

/// Returns the JSON object of the capability sets, whose names are set as
/// they are.
pub fn lay_out_capabilities(sets: &CapabilitySets) -> (text: String)
    ensures
        text@ == capabilities_layout(sets@),
{
    let mut text = "{\"bounding\":".to_string();
    text.append(render_array(&sets.bounding).as_str());
    text.append(",\"effective\":");
    text.append(render_array(&sets.effective).as_str());
    text.append(",\"inheritable\":");
    text.append(render_array(&sets.inheritable).as_str());
    text.append(",\"permitted\":");
    text.append(render_array(&sets.permitted).as_str());
    text.append(",\"ambient\":");
    text.append(render_array(&sets.ambient).as_str());
    text.append("}");
    text
}

/// Returns the JSON object of the process, whose strings are set as they
/// are.
pub fn lay_out_process(process: &ProcessSpec) -> (text: String)
    ensures
        text@ == process_layout(process@),
{
    let mut text = "{\"terminal\":".to_string();
    text.append(bool_literal(process.terminal));
    text.append(",\"user\":{\"uid\":");
    text.append(decimal(process.uid as u64).as_str());
    text.append(",\"gid\":");
    text.append(decimal(process.gid as u64).as_str());
    text.append("},\"args\":");
    text.append(render_array(&process.args).as_str());
    text.append(",\"env\":");
    text.append(render_array(&process.env).as_str());
    text.append(",\"cwd\":");
    text.append(process.cwd.as_str());
    text.append(",\"capabilities\":");
    text.append(lay_out_capabilities(&process.capabilities).as_str());
    text.append("}");
    text
}

/// Returns the JSON object of a mount, whose strings are set as they are.
pub fn lay_out_mount(mount: &MountPoint) -> (text: String)
    ensures
        text@ == mount_layout(mount@),
{
    let mut text = "{\"destination\":".to_string();
    text.append(mount.destination.as_str());
    text.append(",\"type\":");
    text.append(mount.kind.as_str());
    text.append(",\"source\":");
    text.append(mount.source.as_str());
    let ghost head = text@;
    if mount.options.len() > 0 {
        text.append(",\"options\":");
        text.append(render_array(&mount.options).as_str());
        proof {
            assert(text@ =~= head + mount_options_layout(mount@.options));
        }
    } else {
        proof {
            assert(text@ =~= head + mount_options_layout(mount@.options));
        }
    }
    text.append("}");
    text
}

/// Returns the JSON object of a namespace.
pub fn lay_out_namespace(kind: NamespaceKind) -> (text: String)
    ensures
        text@ == namespace_layout(kind),
{
    let mut text = "{\"type\":\"".to_string();
    text.append(kind.as_str());
    text.append("\"}");
    text
}

/// Returns the JSON object of an identity mapping.
pub fn lay_out_mapping(mapping: IdMapping) -> (text: String)
    ensures
        text@ == mapping_layout(mapping),
{
    let mut text = "{\"containerID\":".to_string();
    text.append(decimal(mapping.container_id as u64).as_str());
    text.append(",\"hostID\":");
    text.append(decimal(mapping.host_id as u64).as_str());
    text.append(",\"size\":");
    text.append(decimal(mapping.size as u64).as_str());
    text.append("}");
    text
}

/// Returns the JSON object of the resource limits, whose string is set as
/// it is.
pub fn lay_out_resources(limits: &ResourceLimits) -> (text: String)
    ensures
        text@ == resources_layout(limits@),
{
    let mut text = "{\"devices\":[{\"allow\":".to_string();
    text.append(bool_literal(limits.devices_allowed));
    text.append(",\"access\":");
    text.append(limits.device_access.as_str());
    text.append("}],\"memory\":{\"limit\":");
    text.append(decimal(limits.memory_limit_bytes).as_str());
    text.append("},\"pids\":{\"limit\":");
    text.append(decimal(limits.pids_limit).as_str());
    text.append("}}");
    text
}

/// Returns the JSON array of the mounts.
pub fn lay_out_mounts(mounts: &Vec<MountPoint>) -> (text: String)
    ensures
        text@ == json_array(mounts_layout(mount_views(mounts@))),
{
    let mut parts: Vec<String> = Vec::new();
    let mut i: usize = 0;
    while i < mounts.len()
        invariant
            i <= mounts@.len(),
            parts@.len() == i,
            forall|k: int| 0 <= k < i ==> (#[trigger] parts@[k])@ == mount_layout(mounts@[k]@),
        decreases mounts@.len() - i,
    {
        parts.push(lay_out_mount(&mounts[i]));
        i = i + 1;
    }
    assert(text_views(parts@) =~= mounts_layout(mount_views(mounts@)));
    render_array(&parts)
}

/// Returns the JSON array of the namespaces.
pub fn lay_out_namespaces(kinds: &Vec<NamespaceKind>) -> (text: String)
    ensures
        text@ == json_array(namespaces_layout(kinds@)),
{
    let mut parts: Vec<String> = Vec::new();
    let mut i: usize = 0;
    while i < kinds.len()
        invariant
            i <= kinds@.len(),
            parts@.len() == i,
            forall|k: int| 0 <= k < i ==> (#[trigger] parts@[k])@ == namespace_layout(kinds@[k]),
        decreases kinds@.len() - i,
    {
        parts.push(lay_out_namespace(kinds[i]));
        i = i + 1;
    }
    assert(text_views(parts@) =~= namespaces_layout(kinds@));
    render_array(&parts)
}

/// Returns the JSON array of the identity mappings.
pub fn lay_out_mappings(mappings: &Vec<IdMapping>) -> (text: String)
    ensures
        text@ == json_array(mappings_layout(mappings@)),
{
    let mut parts: Vec<String> = Vec::new();
    let mut i: usize = 0;
    while i < mappings.len()
        invariant
            i <= mappings@.len(),
            parts@.len() == i,
            forall|k: int| 0 <= k < i ==> (#[trigger] parts@[k])@ == mapping_layout(mappings@[k]),
        decreases mappings@.len() - i,
    {
        parts.push(lay_out_mapping(mappings[i]));
        i = i + 1;
    }
    assert(text_views(parts@) =~= mappings_layout(mappings@));
    render_array(&parts)
}

/// Returns the JSON object of the part of the document that is particular
/// to Linux.
pub fn lay_out_linux(spec: &RuntimeSpec) -> (text: String)
    ensures
        text@ == linux_layout(spec@),
{
    let mut text = "{\"resources\":".to_string();
    text.append(lay_out_resources(&spec.resources).as_str());
    text.append(",\"namespaces\":");
    text.append(lay_out_namespaces(&spec.namespaces).as_str());
    text.append(",\"uidMappings\":");
    text.append(lay_out_mappings(&spec.uid_mappings).as_str());
    text.append(",\"gidMappings\":");
    text.append(lay_out_mappings(&spec.gid_mappings).as_str());
    text.append("}");
    text
}

impl RuntimeSpec {
    /// Returns the document with every string in its JSON literal.
    pub fn quoted(&self) -> (quoted: RuntimeSpec)
        ensures
            quoted@ == quoted_document(self@),
    {
        RuntimeSpec {
            oci_version: quote(self.oci_version.as_str()),
            process: ProcessSpec {
                terminal: self.process.terminal,
                uid: self.process.uid,
                gid: self.process.gid,
                args: quote_all(&self.process.args),
                env: quote_all(&self.process.env),
                cwd: quote(self.process.cwd.as_str()),
                capabilities: quote_capabilities(&self.process.capabilities),
            },
            root_path: quote(self.root_path.as_str()),
            root_readonly: self.root_readonly,
            hostname: quote(self.hostname.as_str()),
            mounts: quote_mounts(&self.mounts),
            resources: ResourceLimits {
                devices_allowed: self.resources.devices_allowed,
                device_access: quote(self.resources.device_access.as_str()),
                memory_limit_bytes: self.resources.memory_limit_bytes,
                pids_limit: self.resources.pids_limit,
            },
            namespaces: duplicate_plain(&self.namespaces),
            uid_mappings: duplicate_plain(&self.uid_mappings),
            gid_mappings: duplicate_plain(&self.gid_mappings),
        }
    }

    /// Returns the document laid out as JSON text, each of its strings set
    /// in its place as it is. The result is JSON where every string of the
    /// document is a JSON literal.
    pub fn lay_out(&self) -> (text: String)
        ensures
            text@ == document_layout(self@),
    {
        let mut text = "{\"ociVersion\":".to_string();
        text.append(self.oci_version.as_str());
        text.append(",\"process\":");
        text.append(lay_out_process(&self.process).as_str());
        text.append(",\"root\":{\"path\":");
        text.append(self.root_path.as_str());
        text.append(",\"readonly\":");
        text.append(bool_literal(self.root_readonly));
        text.append("},\"hostname\":");
        text.append(self.hostname.as_str());
        text.append(",\"mounts\":");
        text.append(lay_out_mounts(&self.mounts).as_str());
        text.append(",\"linux\":");
        text.append(lay_out_linux(self).as_str());
        text.append("}");
        text
    }

    /// Returns the document as JSON text.
    pub fn to_json(&self) -> (text: String)
        ensures
            text@ == document_json(self@),
    {
        self.quoted().lay_out()
    }
}

} // verus!
