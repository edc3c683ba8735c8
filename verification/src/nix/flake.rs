//! Reading a flake: which hosts it configures, for which system, with which
//! Keystone modules and which local configuration files.

use vstd::prelude::*;
use crate::chars::{
    ends_with, has_suffix, second_piece, split_second, trim_chars, trimmed, Trim,
};
use rnix::ast::Root;
use crate::nix::syntax::{
    children_of, descendants_of, errors_of, kind_of, node_children, node_descendants, node_kind,
    node_text, parse_errors, parse_of, parse_root, root_of, text_of, NixNode, NodeKind,
};
use crate::nix::{FlakeInfo, HostInfo, HostView};
use crate::text::{chars_of, join, joined, string_of};

verus! {

/// The attribute under which a flake lists its hosts.
pub open spec fn configurations_key() -> Seq<char> {
    "nixosConfigurations"@
}

/// What stands before the name of a Keystone module in a modules list.
pub open spec fn module_prefix() -> Seq<char> {
    "keystone.nixosModules."@
}

/// The first of `nodes` that has the kind `kind`.
pub open spec fn first_of_kind(nodes: Seq<NixNode>, kind: NodeKind) -> Option<NixNode>
    decreases nodes.len(),
{
    if nodes.len() == 0 {
        None
    } else if kind_of(nodes[0]) == kind {
        Some(nodes[0])
    } else {
        first_of_kind(nodes.drop_first(), kind)
    }
}

/// The texts of those of `nodes` that are identifiers, in order.
pub open spec fn ident_texts(nodes: Seq<NixNode>) -> Seq<Seq<char>>
    decreases nodes.len(),
{
    if nodes.len() == 0 {
        Seq::empty()
    } else if kind_of(nodes.last()) == NodeKind::Ident {
        ident_texts(nodes.drop_last()).push(text_of(nodes.last()))
    } else {
        ident_texts(nodes.drop_last())
    }
}

/// An attribute path as text: its identifiers, joined by dots.
pub open spec fn path_text(path: NixNode) -> Seq<char> {
    joined(ident_texts(children_of(path)), "."@)
}

/// The name that a binding binds, if it has an attribute path.
pub open spec fn bound_name(binding: NixNode) -> Option<Seq<char>> {
    match first_of_kind(children_of(binding), NodeKind::AttrPath) {
        Some(path) => Some(path_text(path)),
        None => None,
    }
}

/// The first string literal among `nodes` that is not empty between its
/// quotes, without the quotes.
pub open spec fn first_string(nodes: Seq<NixNode>) -> Option<Seq<char>>
    decreases nodes.len(),
{
    if nodes.len() == 0 {
        None
    } else if kind_of(nodes[0]) == NodeKind::Str && trimmed(text_of(nodes[0]), Trim::Quotes).len()
        > 0 {
        Some(trimmed(text_of(nodes[0]), Trim::Quotes))
    } else {
        first_string(nodes.drop_first())
    }
}

/// The string value of a binding such as `system = "x86_64-linux";`.
pub open spec fn string_value(binding: NixNode) -> Option<Seq<char>> {
    first_string(descendants_of(binding))
}

/// The Keystone module that an entry of a modules list names, if it names
/// one: what follows `keystone.nixosModules.`, trimmed.
pub open spec fn module_name(text: Seq<char>) -> Option<Seq<char>> {
    match second_piece(text, module_prefix()) {
        Some(piece) => if trimmed(piece, Trim::Space).len() > 0 {
            Some(trimmed(piece, Trim::Space))
        } else {
            None
        },
        None => None,
    }
}

/// The local configuration file that an entry of a modules list names, if
/// it is a path that ends in `.nix`.
pub open spec fn config_file(entry: NixNode) -> Option<Seq<char>> {
    if kind_of(entry) == NodeKind::Path && ends_with(
        trimmed(text_of(entry), Trim::Space),
        ".nix"@,
    ) {
        Some(trimmed(text_of(entry), Trim::Space))
    } else {
        None
    }
}

/// `found` with `item` behind it, if there is one.
pub open spec fn with_item(found: Seq<Seq<char>>, item: Option<Seq<char>>) -> Seq<Seq<char>> {
    match item {
        Some(text) => found.push(text),
        None => found,
    }
}

/// `host` with the modules and files that `entries` name added, in order.
pub open spec fn with_modules(host: HostView, entries: Seq<NixNode>) -> HostView
    decreases entries.len(),
{
    if entries.len() == 0 {
        host
    } else {
        let before = with_modules(host, entries.drop_last());
        HostView {
            keystone_modules: with_item(
                before.keystone_modules,
                module_name(text_of(entries.last())),
            ),
            config_files: with_item(before.config_files, config_file(entries.last())),
            ..before
        }
    }
}

/// `host` after one binding of its attribute set: `system` sets the
/// system, `modules` adds what its list names, any other leaves it.
pub open spec fn with_binding(host: HostView, binding: NixNode) -> HostView {
    if kind_of(binding) != NodeKind::AttrPathValue {
        host
    } else {
        match bound_name(binding) {
            Some(name) => if name == "system"@ {
                HostView { system: string_value(binding), ..host }
            } else if name == "modules"@ {
                match first_of_kind(descendants_of(binding), NodeKind::List) {
                    Some(list) => with_modules(host, children_of(list)),
                    None => host,
                }
            } else {
                host
            },
            None => host,
        }
    }
}

/// `host` after the bindings `bindings`, in order.
pub open spec fn with_bindings(host: HostView, bindings: Seq<NixNode>) -> HostView
    decreases bindings.len(),
{
    if bindings.len() == 0 {
        host
    } else {
        with_binding(with_bindings(host, bindings.drop_last()), bindings.last())
    }
}

/// The host that an entry of `nixosConfigurations` describes: named by the
/// first identifier of its attribute path, configured by the first
/// attribute set below it. None where the entry has no name.
pub open spec fn host_entry(entry: NixNode) -> Option<HostView> {
    match first_of_kind(children_of(entry), NodeKind::AttrPath) {
        Some(path) => match first_of_kind(children_of(path), NodeKind::Ident) {
            Some(ident) => {
                let bare = HostView {
                    name: text_of(ident),
                    system: None,
                    keystone_modules: Seq::empty(),
                    config_files: Seq::empty(),
                };
                match first_of_kind(descendants_of(entry), NodeKind::AttrSet) {
                    Some(set) => Some(with_bindings(bare, children_of(set))),
                    None => Some(bare),
                }
            },
            None => None,
        },
        None => None,
    }
}

/// `hosts` with the host that `entry` describes behind it, if `entry` is a
/// binding that describes one.
pub open spec fn with_entry(hosts: Seq<HostView>, entry: NixNode) -> Seq<HostView> {
    if kind_of(entry) == NodeKind::AttrPathValue {
        match host_entry(entry) {
            Some(host) => hosts.push(host),
            None => hosts,
        }
    } else {
        hosts
    }
}

/// `hosts` with the hosts that `entries` describe behind them, in order.
pub open spec fn with_entries(hosts: Seq<HostView>, entries: Seq<NixNode>) -> Seq<HostView>
    decreases entries.len(),
{
    if entries.len() == 0 {
        hosts
    } else {
        with_entry(with_entries(hosts, entries.drop_last()), entries.last())
    }
}

/// The attribute set of host entries that `node` binds, if `node` is the
/// binding `nixosConfigurations = { ... }`.
pub open spec fn configurations_at(node: NixNode) -> Option<NixNode> {
    if kind_of(node) == NodeKind::AttrPathValue && bound_name(node) == Some(configurations_key()) {
        first_of_kind(children_of(node), NodeKind::AttrSet)
    } else {
        None
    }
}

/// `hosts` with the hosts configured at `node` behind them.
pub open spec fn with_node(hosts: Seq<HostView>, node: NixNode) -> Seq<HostView> {
    match configurations_at(node) {
        Some(set) => with_entries(hosts, children_of(set)),
        None => hosts,
    }
}

/// `hosts` with the hosts configured at `nodes` behind them, in order.
pub open spec fn with_nodes(hosts: Seq<HostView>, nodes: Seq<NixNode>) -> Seq<HostView>
    decreases nodes.len(),
{
    if nodes.len() == 0 {
        hosts
    } else {
        with_node(with_nodes(hosts, nodes.drop_last()), nodes.last())
    }
}

/// The hosts that the tree under `root` configures, in source order.
pub open spec fn hosts_of(root: NixNode) -> Seq<HostView> {
    with_nodes(Seq::empty(), descendants_of(root))
}

/// What reading a flake's source gives: its hosts, or the parser's
/// complaints in one message.
pub open spec fn flake_of(source: Seq<char>) -> Result<Seq<HostView>, Seq<char>> {
    let parsed = parse_of(source);
    if errors_of(parsed).len() == 0 {
        Ok(hosts_of(root_of(parsed)))
    } else {
        Err("Failed to parse flake.nix: "@ + joined(errors_of(parsed), ", "@))
    }
}

/// The index of the first of `nodes` that has the kind `kind`.
fn find_kind(nodes: &Vec<NixNode>, kind: NodeKind) -> (found: Option<usize>)
    ensures
        match found {
            Some(index) => index < nodes@.len() && first_of_kind(nodes@, kind) == Some(
                nodes@[index as int],
            ),
            None => first_of_kind(nodes@, kind) is None,
        },
{
    let mut next: usize = 0;
    assert(nodes@.skip(0) =~= nodes@);
    while next < nodes.len()
        invariant
            next <= nodes.len(),
            first_of_kind(nodes@, kind) == first_of_kind(nodes@.skip(next as int), kind),
        decreases nodes.len() - next,
    {
        assert(nodes@.skip(next as int)[0] == nodes@[next as int]);
        assert(nodes@.skip(next as int).drop_first() =~= nodes@.skip(next + 1));
        if node_kind(&nodes[next]) == kind {
            return Some(next);
        }
        next = next + 1;
    }
    assert(nodes@.skip(next as int).len() == 0);
    None
}

/// An attribute path as text: its identifiers, joined by dots.
fn attr_path_text(path: &NixNode) -> (text: String)
    ensures
        text@ == path_text(*path),
{
    let children = node_children(path);
    let mut idents: Vec<String> = Vec::new();
    assert(idents.deep_view() =~= Seq::empty());
    let mut next: usize = 0;
    while next < children.len()
        invariant
            next <= children.len(),
            idents.deep_view() == ident_texts(children@.take(next as int)),
        decreases children.len() - next,
    {
        let ghost before = idents.deep_view();
        let ghost more = children@.take(next + 1);
        assert(more.drop_last() =~= children@.take(next as int));
        assert(more.last() == children@[next as int]);
        if node_kind(&children[next]) == NodeKind::Ident {
            let text = node_text(&children[next]);
            idents.push(text);
            assert(idents.deep_view() =~= before.push(text_of(children@[next as int])));
        }
        next = next + 1;
    }
    assert(children@.take(next as int) =~= children@);
    join(&idents, ".")
}

/// The name that a binding binds, if it has an attribute path.
fn binding_name(binding: &NixNode) -> (name: Option<String>)
    ensures
        match name {
            Some(text) => bound_name(*binding) == Some(text@),
            None => bound_name(*binding) is None,
        },
{
    let children = node_children(binding);
    match find_kind(&children, NodeKind::AttrPath) {
        Some(index) => Some(attr_path_text(&children[index])),
        None => None,
    }
}

/// Extract a string literal value from an attrpath_value node.
/// e.g., for `system = "x86_64-linux";`, returns Some("x86_64-linux").
pub fn extract_string_value(attr_node: &NixNode) -> (value: Option<String>)
    ensures
        match value {
            Some(text) => string_value(*attr_node) == Some(text@),
            None => string_value(*attr_node) is None,
        },
{
    let nodes = node_descendants(attr_node);
    let mut next: usize = 0;
    assert(nodes@.skip(0) =~= nodes@);
    while next < nodes.len()
        invariant
            next <= nodes.len(),
            nodes@ == descendants_of(*attr_node),
            first_string(nodes@) == first_string(nodes@.skip(next as int)),
        decreases nodes.len() - next,
    {
        assert(nodes@.skip(next as int)[0] == nodes@[next as int]);
        assert(nodes@.skip(next as int).drop_first() =~= nodes@.skip(next + 1));
        if node_kind(&nodes[next]) == NodeKind::Str {
            // Get the string content (the parts between quotes)
            let text = node_text(&nodes[next]);
            // Strip surrounding quotes
            let inner = trim_chars(&chars_of(text.as_str()), Trim::Quotes);
            if inner.len() > 0 {
                return Some(string_of(&inner));
            }
        }
        next = next + 1;
    }
    assert(nodes@.skip(next as int).len() == 0);
    None
}

/// Parse a modules list and extract keystone module names and config file paths.
pub fn parse_modules_list(
    list_node: &NixNode,
    keystone_modules: &mut Vec<String>,
    config_files: &mut Vec<String>,
)
    ensures
        ({
            let before = HostView {
                name: Seq::empty(),
                system: None,
                keystone_modules: old(keystone_modules).deep_view(),
                config_files: old(config_files).deep_view(),
            };
            let after = with_modules(before, children_of(*list_node));
            &&& final(keystone_modules).deep_view() == after.keystone_modules
            &&& final(config_files).deep_view() == after.config_files
        }),
{
    let ghost before = HostView {
        name: Seq::empty(),
        system: None,
        keystone_modules: keystone_modules.deep_view(),
        config_files: config_files.deep_view(),
    };
    let entries = node_children(list_node);
    let prefix = chars_of("keystone.nixosModules.");
    let suffix = chars_of(".nix");
    let mut next: usize = 0;
    while next < entries.len()
        invariant
            next <= entries.len(),
            prefix@ == module_prefix(),
            suffix@ == ".nix"@,
            keystone_modules.deep_view() == with_modules(
                before,
                entries@.take(next as int),
            ).keystone_modules,
            config_files.deep_view() == with_modules(
                before,
                entries@.take(next as int),
            ).config_files,
        decreases entries.len() - next,
    {
        let ghost more = entries@.take(next + 1);
        assert(more.drop_last() =~= entries@.take(next as int));
        assert(more.last() == entries@[next as int]);
        let ghost modules_before = keystone_modules.deep_view();
        let ghost files_before = config_files.deep_view();
        let text = chars_of(node_text(&entries[next]).as_str());

        // Check for keystone.nixosModules.X
        match split_second(&text, &prefix) {
            Some(piece) => {
                let module_name = trim_chars(&piece, Trim::Space);
                if module_name.len() > 0 {
                    keystone_modules.push(string_of(&module_name));
                    assert(keystone_modules.deep_view() =~= modules_before.push(module_name@));
                }
            },
            None => {},
        }

        // Check for local config file paths like ./configuration.nix
        if node_kind(&entries[next]) == NodeKind::Path {
            let path_text = trim_chars(&text, Trim::Space);
            if has_suffix(&path_text, &suffix) {
                config_files.push(string_of(&path_text));
                assert(config_files.deep_view() =~= files_before.push(path_text@));
            }
        }
        next = next + 1;
    }
    assert(entries@.take(next as int) =~= entries@);
}

/// Parse a single host entry from the nixosConfigurations attrset.
/// Expects a node like: `my-machine = nixpkgs.lib.nixosSystem { system = "..."; modules = [...]; };`
pub fn parse_host_entry(attr_node: &NixNode) -> (host: Option<HostInfo>)
    ensures
        match host {
            Some(info) => host_entry(*attr_node) == Some(info@),
            None => host_entry(*attr_node) is None,
        },
{
    // Get the host name from the attrpath
    let parts = node_children(attr_node);
    let key_path = match find_kind(&parts, NodeKind::AttrPath) {
        Some(index) => index,
        None => {
            return None;
        },
    };
    let key_parts = node_children(&parts[key_path]);
    let name = match find_kind(&key_parts, NodeKind::Ident) {
        Some(index) => node_text(&key_parts[index]),
        None => {
            return None;
        },
    };

    let mut system: Option<String> = None;
    let mut keystone_modules: Vec<String> = Vec::new();
    let mut config_files: Vec<String> = Vec::new();
    assert(keystone_modules.deep_view() =~= Seq::empty());
    assert(config_files.deep_view() =~= Seq::empty());
    let ghost bare = HostView {
        name: name@,
        system: None,
        keystone_modules: Seq::empty(),
        config_files: Seq::empty(),
    };

    // Only the first (outermost) attrset below the entry configures the host
    let below = node_descendants(attr_node);
    match find_kind(&below, NodeKind::AttrSet) {
        Some(set) => {
            let bindings = node_children(&below[set]);
            let mut next: usize = 0;
            while next < bindings.len()
                invariant
                    next <= bindings.len(),
                    (HostView {
                        name: name@,
                        system: match system {
                            Some(text) => Some(text@),
                            None => None,
                        },
                        keystone_modules: keystone_modules.deep_view(),
                        config_files: config_files.deep_view(),
                    }) == with_bindings(bare, bindings@.take(next as int)),
                decreases bindings.len() - next,
            {
                let ghost more = bindings@.take(next + 1);
                assert(more.drop_last() =~= bindings@.take(next as int));
                assert(more.last() == bindings@[next as int]);
                let ghost current = with_bindings(bare, bindings@.take(next as int));
                if node_kind(&bindings[next]) == NodeKind::AttrPathValue {
                    match binding_name(&bindings[next]) {
                        Some(attr_name) => {
                            if attr_name == String::from_str("system") {
                                system = extract_string_value(&bindings[next]);
                            } else if attr_name == String::from_str("modules") {
                                // Parse the modules list
                                let inner = node_descendants(&bindings[next]);
                                match find_kind(&inner, NodeKind::List) {
                                    Some(list) => {
                                        proof {
                                            lemma_with_modules_name(
                                                current,
                                                children_of(inner@[list as int]),
                                            );
                                        }
                                        parse_modules_list(
                                            &inner[list],
                                            &mut keystone_modules,
                                            &mut config_files,
                                        );
                                    },
                                    None => {},
                                }
                            }
                        },
                        None => {},
                    }
                }
                next = next + 1;
            }
            assert(bindings@.take(next as int) =~= bindings@);
        },
        None => {},
    }

    Some(HostInfo { name, system, keystone_modules, config_files })
}

/// The modules of a list do not depend on the name and the system of the
/// host that they are added to, and leave both as they are.
proof fn lemma_with_modules_name(host: HostView, entries: Seq<NixNode>)
    ensures
        with_modules(host, entries).name == host.name,
        with_modules(host, entries).system == host.system,
        with_modules(host, entries).keystone_modules == with_modules(
            HostView { name: Seq::empty(), system: None, ..host },
            entries,
        ).keystone_modules,
        with_modules(host, entries).config_files == with_modules(
            HostView { name: Seq::empty(), system: None, ..host },
            entries,
        ).config_files,
    decreases entries.len(),
{
    if entries.len() > 0 {
        lemma_with_modules_name(host, entries.drop_last());
    }
}

/// Extract nixosConfigurations attribute names and details from the flake AST.
pub fn extract_nixos_configurations(root: &NixNode) -> (hosts: Vec<HostInfo>)
    ensures
        hosts.deep_view() == hosts_of(*root),
{
    let mut hosts: Vec<HostInfo> = Vec::new();
    assert(hosts.deep_view() =~= Seq::empty());
    let key = String::from_str("nixosConfigurations");

    // Walk the AST looking for nixosConfigurations
    let nodes = node_descendants(root);
    let mut next: usize = 0;
    while next < nodes.len()
        invariant
            next <= nodes.len(),
            key@ == configurations_key(),
            hosts.deep_view() == with_nodes(Seq::empty(), nodes@.take(next as int)),
        decreases nodes.len() - next,
    {
        let ghost more = nodes@.take(next + 1);
        assert(more.drop_last() =~= nodes@.take(next as int));
        assert(more.last() == nodes@[next as int]);
        if node_kind(&nodes[next]) == NodeKind::AttrPathValue {
            // Check if this is nixosConfigurations = { ... }
            let parts = node_children(&nodes[next]);
            match find_kind(&parts, NodeKind::AttrPath) {
                Some(path) => {
                    let path_text = attr_path_text(&parts[path]);
                    if path_text == key {
                        // Found nixosConfigurations, now extract each host entry
                        match find_kind(&parts, NodeKind::AttrSet) {
                            Some(set) => {
                                let entries = node_children(&parts[set]);
                                let ghost start = hosts.deep_view();
                                let mut entry: usize = 0;
                                while entry < entries.len()
                                    invariant
                                        entry <= entries.len(),
                                        hosts.deep_view() == with_entries(
                                            start,
                                            entries@.take(entry as int),
                                        ),
                                    decreases entries.len() - entry,
                                {
                                    let ghost taken = entries@.take(entry + 1);
                                    assert(taken.drop_last() =~= entries@.take(entry as int));
                                    assert(taken.last() == entries@[entry as int]);
                                    let ghost before = hosts.deep_view();
                                    if node_kind(&entries[entry]) == NodeKind::AttrPathValue {
                                        match parse_host_entry(&entries[entry]) {
                                            Some(host_info) => {
                                                hosts.push(host_info);
                                                assert(hosts.deep_view() =~= before.push(
                                                    host_info@,
                                                ));
                                            },
                                            None => {},
                                        }
                                    }
                                    entry = entry + 1;
                                }
                                assert(entries@.take(entry as int) =~= entries@);
                            },
                            None => {},
                        }
                    }
                },
                None => {},
            }
        }
        next = next + 1;
    }
    assert(nodes@.take(next as int) =~= nodes@);
    hosts
}

/// The hosts that a flake's source configures, whatever the parser
/// complains of.
pub fn extract_hosts(source: &str) -> (hosts: Vec<HostInfo>)
    ensures
        hosts.deep_view() == hosts_of(root_of(parse_of(source@))),
{
    let parsed = Root::parse(source);
    let root = parse_root(&parsed);
    extract_nixos_configurations(&root)
}

/// Parse the source of a flake.nix file and extract configuration
/// information. A source that does not parse is refused with the parser's
/// complaints.
pub fn parse_flake(source: &str) -> (flake: Result<FlakeInfo, String>)
    ensures
        match flake {
            Ok(info) => flake_of(source@) == Ok::<Seq<HostView>, Seq<char>>(
                info.hosts.deep_view(),
            ),
            Err(message) => flake_of(source@) == Err::<Seq<HostView>, Seq<char>>(message@),
        },
{
    // Parse with rnix
    let parsed = Root::parse(source);
    let errors = parse_errors(&parsed);
    if errors.len() > 0 {
        let mut message = String::from_str("Failed to parse flake.nix: ");
        message.append(join(&errors, ", ").as_str());
        return Err(message);
    }
    let root = parse_root(&parsed);
    let hosts = extract_nixos_configurations(&root);
    Ok(FlakeInfo { hosts })
}

} // verus!
