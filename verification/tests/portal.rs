use dynamic_portal::container;
use dynamic_portal::dom::Dom;
use dynamic_portal::dom::Tag;
use dynamic_portal::dom::DOCUMENT_ROOT;
use dynamic_portal::dom::FALLBACK_CONTAINER_ID;
use dynamic_portal::dom::NO_ID;
use dynamic_portal::dom::WRAPPER_CONTAINER_ID;
use dynamic_portal::dynamic_portal::choose_strategy;
use dynamic_portal::dynamic_portal::choose_tag;
use dynamic_portal::dynamic_portal::ContainerStrategy;
use dynamic_portal::dynamic_portal::DynamicPortal;
use dynamic_portal::dynamic_portal::PortalConfig;
use dynamic_portal::host::HostWatcher;
use dynamic_portal::my_portal::MyPortal;
use dynamic_portal::persistent_portal::decide_persist_action;
use dynamic_portal::persistent_portal::PersistAction;
use dynamic_portal::persistent_portal::PersistentPortal;

/// A host element attached under the document body, as an application
/// would supply it.
fn attached_host(dom: &mut Dom) -> usize {
    let e = dom.create_element(Tag::Div);
    dom.append_child(DOCUMENT_ROOT, e);
    e
}

/// Indices of nodes carrying `id` that are attached directly under the
/// body.
fn attached_with_id(dom: &Dom, id: u64) -> Vec<usize> {
    let mut found = Vec::new();
    for i in 0..dom.len() {
        if dom.elem_id_of(i) == id && dom.parent_of(i) == Some(DOCUMENT_ROOT) {
            found.push(i);
        }
    }
    found
}

/// Every observable field of every node, for whole-document comparisons.
fn snapshot(dom: &Dom) -> Vec<(Tag, u64, bool, bool, Option<usize>)> {
    let mut s = Vec::new();
    for i in 0..dom.len() {
        s.push((
            dom.tag_of(i),
            dom.elem_id_of(i),
            dom.hidden_of(i),
            dom.is_shadow_root(i),
            dom.parent_of(i),
        ));
    }
    s
}

fn active_mount_count(p: &DynamicPortal) -> usize {
    p.mounts.iter().filter(|m| !m.disposed).count()
}

#[test]
fn scenario_a_absent_host_then_direct_host() {
    let mut dom = Dom::new();
    let mut p = DynamicPortal::new(PortalConfig::default());

    // Host absent: the fallback container is created, hidden, under the
    // body, and the children render inside it.
    p.step(&mut dom, None);
    assert_eq!(dom.len(), 3);
    let fallback = 1;
    let first_root = 2;
    assert_eq!(dom.elem_id_of(fallback), FALLBACK_CONTAINER_ID);
    assert_eq!(dom.parent_of(fallback), Some(DOCUMENT_ROOT));
    assert!(dom.hidden_of(fallback));
    assert_eq!(dom.tag_of(fallback), Tag::Div);
    assert_eq!(dom.parent_of(first_root), Some(fallback));
    assert_eq!(active_mount_count(&p), 1);

    // Host set to E, no wrapping: the children render directly inside E,
    // and the earlier fallback mount is fully torn down.
    let e = attached_host(&mut dom);
    p.step(&mut dom, Some(e));
    let second_root = 4;
    assert_eq!(dom.parent_of(second_root), Some(e));
    assert_eq!(dom.parent_of(first_root), None);
    assert_eq!(dom.parent_of(fallback), None);
    assert_eq!(active_mount_count(&p), 1);
    let m = p.mounts.last().unwrap();
    assert!(m.provided);
    assert_eq!(m.container, e);
}

#[test]
fn scenario_b_wrapped_host() {
    let mut dom = Dom::new();
    let mut config = PortalConfig::default();
    config.wrap_children = true;
    let mut p = DynamicPortal::new(config);

    let e = attached_host(&mut dom);
    p.step(&mut dom, Some(e));

    let wrapper = 2;
    let root = 3;
    assert_eq!(dom.elem_id_of(wrapper), WRAPPER_CONTAINER_ID);
    assert_eq!(dom.parent_of(wrapper), Some(DOCUMENT_ROOT));
    // E became a child of the wrapper, and the children render into the
    // wrapper, which does not count as externally provided.
    assert_eq!(dom.parent_of(e), Some(wrapper));
    assert_eq!(dom.parent_of(root), Some(wrapper));
    assert!(!p.mounts.last().unwrap().provided);
}

#[test]
fn wrapper_is_removed_on_the_next_step() {
    let mut dom = Dom::new();
    let mut config = PortalConfig::default();
    config.wrap_children = true;
    let mut p = DynamicPortal::new(config);

    let e = attached_host(&mut dom);
    p.step(&mut dom, Some(e));
    let first_wrapper = 2;
    p.step(&mut dom, Some(e));
    let second_wrapper = 4;

    // The wrapper, not the host, is removed on cleanup.
    assert_eq!(dom.parent_of(first_wrapper), None);
    assert_eq!(dom.elem_id_of(second_wrapper), WRAPPER_CONTAINER_ID);
    assert_eq!(dom.parent_of(e), Some(second_wrapper));
    assert_eq!(active_mount_count(&p), 1);
}

#[test]
fn provided_host_survives_cleanup() {
    let mut dom = Dom::new();
    let mut p = DynamicPortal::new(PortalConfig::default());

    let e = attached_host(&mut dom);
    p.step(&mut dom, Some(e));
    let root = dom.len() - 1;
    assert_eq!(dom.parent_of(root), Some(e));

    // Host withdrawn: only the rendered children leave the host; the
    // host element itself stays where the application put it.
    p.step(&mut dom, None);
    assert_eq!(dom.parent_of(root), None);
    assert_eq!(dom.parent_of(e), Some(DOCUMENT_ROOT));
    assert_eq!(dom.elem_id_of(e), NO_ID);
}

#[test]
fn explicit_cleanup_disposes_the_mount() {
    let mut dom = Dom::new();
    let mut p = DynamicPortal::new(PortalConfig::default());
    p.step(&mut dom, None);
    assert_eq!(active_mount_count(&p), 1);
    p.cleanup(&mut dom);
    assert_eq!(active_mount_count(&p), 0);
    // The fallback container, created by the portal itself, was removed.
    assert_eq!(attached_with_id(&dom, FALLBACK_CONTAINER_ID).len(), 0);
}

#[test]
fn at_most_one_active_mount_over_many_steps() {
    let mut dom = Dom::new();
    let mut p = DynamicPortal::new(PortalConfig::default());
    let e = attached_host(&mut dom);
    let hosts = [None, Some(e), Some(e), None, Some(e), None, None];
    for h in hosts {
        p.step(&mut dom, h);
        assert_eq!(active_mount_count(&p), 1);
    }
    p.cleanup(&mut dom);
    assert_eq!(active_mount_count(&p), 0);
}

#[test]
fn fallback_container_is_never_duplicated() {
    let mut dom = Dom::new();
    let mut p1 = DynamicPortal::new(PortalConfig::default());
    let mut p2 = DynamicPortal::new(PortalConfig::default());

    // Repeated absent-host runs, across two instances, share one
    // fallback container.
    p1.step(&mut dom, None);
    p2.step(&mut dom, None);
    assert_eq!(attached_with_id(&dom, FALLBACK_CONTAINER_ID).len(), 1);
    p2.step(&mut dom, None);
    assert_eq!(attached_with_id(&dom, FALLBACK_CONTAINER_ID).len(), 1);
}

#[test]
fn hiding_style_is_reapplied_on_reuse() {
    let mut dom = Dom::new();
    let mut visible = PortalConfig::default();
    visible.hide_if_none = false;
    let mut p1 = DynamicPortal::new(visible);
    p1.step(&mut dom, None);
    let fallback = attached_with_id(&dom, FALLBACK_CONTAINER_ID)[0];
    assert!(!dom.hidden_of(fallback));

    // A second instance that wants hiding re-applies the style on reuse,
    let mut p2 = DynamicPortal::new(PortalConfig::default());
    p2.step(&mut dom, None);
    assert!(dom.hidden_of(fallback));
}

#[test]
fn svg_context_uses_g_containers() {
    let mut dom = Dom::new();
    let mut config = PortalConfig::default();
    config.is_svg = true;
    let mut p = DynamicPortal::new(config);
    p.step(&mut dom, None);
    let fallback = attached_with_id(&dom, FALLBACK_CONTAINER_ID)[0];
    assert_eq!(dom.tag_of(fallback), Tag::G);
}

#[test]
fn shadow_root_is_attached_to_created_containers() {
    let mut dom = Dom::new();
    let mut config = PortalConfig::default();
    config.use_shadow = true;
    let mut p = DynamicPortal::new(config);
    p.step(&mut dom, None);
    let fallback = attached_with_id(&dom, FALLBACK_CONTAINER_ID)[0];
    let shadow = fallback + 1;
    assert!(dom.is_shadow_root(shadow));
    assert_eq!(dom.parent_of(shadow), Some(fallback));
}

#[test]
fn container_factory_find_then_create() {
    let mut dom = Dom::new();
    assert_eq!(container::find_fallback(&dom, FALLBACK_CONTAINER_ID), None);
    let c = container::create(&mut dom, Tag::Div, FALLBACK_CONTAINER_ID, true, false);
    assert_eq!(container::find_fallback(&dom, FALLBACK_CONTAINER_ID), Some(c));
    dom.detach(c);
    assert_eq!(container::find_fallback(&dom, FALLBACK_CONTAINER_ID), None);
}

#[test]
fn scenario_c_persistent_relocation() {
    let mut dom = Dom::new();
    let mut p = PersistentPortal::new(false);

    // Host absent at start: root node created under the fallback
    // container.
    p.step(&mut dom, None);
    assert!(p.created);
    let root = p.root.unwrap();
    let fallback = attached_with_id(&dom, FALLBACK_CONTAINER_ID)[0];
    assert!(dom.hidden_of(fallback));
    assert_eq!(dom.parent_of(root), Some(fallback));
    let len_after_render = dom.len();

    // Host set: the same node becomes a child of E, with no re-render.
    let e = attached_host(&mut dom);
    p.step(&mut dom, Some(e));
    assert_eq!(p.root, Some(root));
    assert_eq!(dom.parent_of(root), Some(e));
    assert_eq!(dom.len(), len_after_render + 1); // only E was added

    // Host cleared: the same node moves back under the fallback
    // container.
    p.step(&mut dom, None);
    assert_eq!(p.root, Some(root));
    assert_eq!(dom.parent_of(root), Some(fallback));
    assert_eq!(dom.len(), len_after_render + 1);
}

#[test]
fn persistent_reevaluation_is_idempotent() {
    let mut dom = Dom::new();
    let mut p = PersistentPortal::new(false);
    p.step(&mut dom, None);
    let e = attached_host(&mut dom);
    p.step(&mut dom, Some(e));

    // Unchanged host state: zero document mutations.
    let before = snapshot(&dom);
    p.step(&mut dom, Some(e));
    assert_eq!(snapshot(&dom), before);

    p.step(&mut dom, None);
    let before = snapshot(&dom);
    p.step(&mut dom, None);
    assert_eq!(snapshot(&dom), before);
}

#[test]
fn persistent_render_happens_exactly_once() {
    let mut dom = Dom::new();
    let mut p = PersistentPortal::new(false);
    let e = attached_host(&mut dom);
    let hosts = vec![None, Some(e), None, None, Some(e), Some(e), None];
    p.run_hosts(&mut dom, &hosts);
    let root = p.root.unwrap();
    p.run_hosts(&mut dom, &vec![Some(e), None, Some(e)]);
    // One render for the component's lifetime; the root's identity never
    // changes.
    assert_eq!(p.root, Some(root));
    assert_eq!(attached_with_id(&dom, FALLBACK_CONTAINER_ID).len(), 1);
}

#[test]
fn persistent_transient_host_without_render() {
    let mut dom = Dom::new();
    let mut p = PersistentPortal::new(false);
    let e = attached_host(&mut dom);

    // Host present but nothing rendered yet: nothing is moved, nothing
    // is created beyond the fallback container itself.
    p.step(&mut dom, Some(e));
    assert!(!p.created);
    assert_eq!(p.root, None);
    let fallback = attached_with_id(&dom, FALLBACK_CONTAINER_ID)[0];
    assert_eq!(dom.len(), 3); // body, E, fallback

    // Once the host clears, the one-time render happens.
    p.step(&mut dom, None);
    assert!(p.created);
    assert_eq!(dom.parent_of(p.root.unwrap()), Some(fallback));
}

#[test]
fn persistent_respects_foreign_fallback_content() {
    let mut dom = Dom::new();
    let fb = container::create(&mut dom, Tag::Div, FALLBACK_CONTAINER_ID, true, false);
    dom.mount_subtree(fb);

    // The fallback container already has children (another portal's):
    // the one-time render does not fire.
    let mut p = PersistentPortal::new(false);
    p.step(&mut dom, None);
    assert!(!p.created);
    assert_eq!(p.root, None);
    assert_eq!(dom.len(), 3);
}

#[test]
fn persistent_final_teardown_detaches_the_root() {
    let mut dom = Dom::new();
    let mut p = PersistentPortal::new(false);
    p.step(&mut dom, None);
    let root = p.root.unwrap();
    p.final_teardown(&mut dom);
    assert_eq!(dom.parent_of(root), None);
}

#[test]
fn persist_action_rule() {
    // host, root exists, in place, created, fallback empty
    assert_eq!(decide_persist_action(true, true, true, true, false), PersistAction::LeaveInPlace);
    assert_eq!(decide_persist_action(true, true, false, true, false), PersistAction::MoveToHost);
    assert_eq!(decide_persist_action(false, true, false, true, false), PersistAction::MoveToFallback);
    assert_eq!(decide_persist_action(false, false, false, false, true), PersistAction::RenderOnce);
    assert_eq!(decide_persist_action(false, false, false, false, false), PersistAction::LeaveInPlace);
    assert_eq!(decide_persist_action(false, false, false, true, true), PersistAction::LeaveInPlace);
    assert_eq!(decide_persist_action(true, false, false, false, true), PersistAction::LeaveInPlace);
}

#[test]
fn container_strategy_rule() {
    assert_eq!(choose_strategy(true, true), ContainerStrategy::WrapHost);
    assert_eq!(choose_strategy(true, false), ContainerStrategy::UseHost);
    assert_eq!(choose_strategy(false, true), ContainerStrategy::Fallback);
    assert_eq!(choose_strategy(false, false), ContainerStrategy::Fallback);
}

#[test]
fn tag_rule_and_defaults() {
    assert_eq!(choose_tag(false), Tag::Div);
    assert_eq!(choose_tag(true), Tag::G);
    let d = PortalConfig::default();
    assert!(!d.use_shadow);
    assert!(!d.is_svg);
    assert!(d.hide_if_none);
    assert!(!d.wrap_children);
}

#[test]
fn host_watcher_drives_the_portal() {
    let mut dom = Dom::new();
    let mut p = DynamicPortal::new(PortalConfig::default());
    let mut signal = HostWatcher::new(None);

    // Absence is a valid value: the portal falls back.
    p.step(&mut dom, signal.current());
    assert_eq!(attached_with_id(&dom, FALLBACK_CONTAINER_ID).len(), 1);

    // The signal changes; the change callback re-runs the step with the
    // new value, and tracked and untracked reads agree.
    let e = attached_host(&mut dom);
    signal.set(Some(e));
    assert_eq!(signal.current(), signal.current_untracked());
    p.step(&mut dom, signal.current());
    let m = p.mounts.last().unwrap();
    assert_eq!(m.container, e);
    assert!(m.provided);
}

#[test]
fn my_portal_renders_under_the_body() {
    let mut dom = Dom::new();
    let mut p = MyPortal::new(&dom, None, false, false);
    p.step(&mut dom);
    let m = p.active.unwrap();
    assert_eq!(dom.parent_of(m.container), Some(DOCUMENT_ROOT));
    assert_eq!(m.render_root, m.container);
    assert_eq!(dom.parent_of(m.subtree), Some(m.container));
    assert_eq!(dom.tag_of(m.container), Tag::Div);
}

#[test]
fn my_portal_rerender_replaces_the_container() {
    let mut dom = Dom::new();
    let mt = attached_host(&mut dom);
    let mut p = MyPortal::new(&dom, Some(mt), false, true);
    p.step(&mut dom);
    let first = p.active.unwrap();
    assert_eq!(dom.tag_of(first.container), Tag::G);
    assert_eq!(dom.parent_of(first.container), Some(mt));
    p.step(&mut dom);
    let second = p.active.unwrap();
    assert_eq!(dom.parent_of(first.container), None);
    assert_eq!(dom.parent_of(second.container), Some(mt));
    assert_ne!(first.container, second.container);
}

#[test]
fn my_portal_shadow_root_isolates_children() {
    let mut dom = Dom::new();
    let mut p = MyPortal::new(&dom, None, true, false);
    p.step(&mut dom);
    let m = p.active.unwrap();
    assert_ne!(m.render_root, m.container);
    assert!(dom.is_shadow_root(m.render_root));
    assert_eq!(dom.parent_of(m.render_root), Some(m.container));
    assert_eq!(dom.parent_of(m.subtree), Some(m.render_root));
    p.cleanup(&mut dom);
    assert_eq!(dom.parent_of(m.container), None);
    assert!(p.active.is_none());
}
