use vimcord::lists::build_chan_rows;
use vimcord::model::{Channel, Overwrite, PermissionContext, Role};
use vimcord::perm::{channel_perms, id_in_list, readable_with, VIEW_CHANNEL_BIT};

fn ctx() -> PermissionContext {
    PermissionContext {
        user_id: "u1".to_string(),
        user_role_ids: vec!["e".to_string(), "mod".to_string()],
        all_guild_roles: vec![
            Role { id: "e".to_string(), permissions: VIEW_CHANNEL_BIT },
            Role { id: "mod".to_string(), permissions: 8 },
        ],
        everyone_role_id: "e".to_string(),
    }
}

fn chan(id: &str, name: &str, ty: u8, parent: Option<&str>, ows: Vec<Overwrite>) -> Channel {
    Channel {
        id: id.to_string(),
        name: name.to_string(),
        channel_type: ty,
        guild_id: Some("g".to_string()),
        parent_id: parent.map(|p| p.to_string()),
        permission_overwrites: ows,
    }
}

fn deny_everyone() -> Overwrite {
    Overwrite { id: "e".to_string(), kind: 0, allow: 0, deny: VIEW_CHANNEL_BIT }
}

#[test]
fn baseline_is_union_of_user_roles() {
    let c = ctx();
    assert_eq!(channel_perms(&Vec::new(), &c), VIEW_CHANNEL_BIT | 8);
}

#[test]
fn readable_with_no_overwrites() {
    assert!(readable_with(&Vec::new(), &ctx()));
}

#[test]
fn everyone_deny_hides_channel() {
    assert!(!readable_with(&vec![deny_everyone()], &ctx()));
}

#[test]
fn role_allow_overrides_everyone_deny() {
    let ows = vec![
        deny_everyone(),
        Overwrite { id: "mod".to_string(), kind: 0, allow: VIEW_CHANNEL_BIT, deny: 0 },
    ];
    assert!(readable_with(&ows, &ctx()));
}

#[test]
fn role_deny_beats_role_allow_in_same_layer() {
    let mut c = ctx();
    c.user_role_ids.push("extra".to_string());
    let ows = vec![
        Overwrite { id: "mod".to_string(), kind: 0, allow: VIEW_CHANNEL_BIT, deny: 0 },
        Overwrite { id: "extra".to_string(), kind: 0, allow: 0, deny: VIEW_CHANNEL_BIT },
    ];
    assert!(!readable_with(&ows, &c));
}

#[test]
fn member_overwrite_overrides_role_layer() {
    let mut c = ctx();
    c.user_role_ids.push("extra".to_string());
    let ows = vec![
        Overwrite { id: "extra".to_string(), kind: 0, allow: 0, deny: VIEW_CHANNEL_BIT },
        Overwrite { id: "u1".to_string(), kind: 1, allow: VIEW_CHANNEL_BIT, deny: 0 },
    ];
    assert!(readable_with(&ows, &c));
}

#[test]
fn overwrites_of_other_roles_are_ignored() {
    let ows = vec![Overwrite {
        id: "stranger".to_string(),
        kind: 0,
        allow: 0,
        deny: VIEW_CHANNEL_BIT,
    }];
    assert!(readable_with(&ows, &ctx()));
}

#[test]
fn id_lookup() {
    let ids = vec!["a".to_string(), "b".to_string()];
    assert!(id_in_list(&ids, &"b".to_string()));
    assert!(!id_in_list(&ids, &"c".to_string()));
}

#[test]
fn category_row_with_only_readable_child() {
    // A category with one readable and one unreadable child lists the
    // category row and only the readable child.
    let channels = vec![
        chan("10", "stuff", 4, None, Vec::new()),
        chan("11", "open", 0, Some("10"), Vec::new()),
        chan("12", "secret", 0, Some("10"), vec![deny_everyone()]),
    ];
    let rows = build_chan_rows(&channels, "", &Some(ctx()));
    assert_eq!(rows.len(), 2);
    assert_eq!(rows[0].idx, 0);
    assert_eq!(rows[0].parent, None);
    assert_eq!(rows[1].idx, 1);
    assert_eq!(rows[1].parent, Some(0));
}

#[test]
fn child_without_own_overwrites_inherits_category() {
    let channels = vec![
        chan("10", "cat", 4, None, vec![deny_everyone()]),
        chan("11", "inherits", 0, Some("10"), Vec::new()),
        chan("12", "own", 0, Some("10"), vec![Overwrite {
            id: "e".to_string(),
            kind: 0,
            allow: VIEW_CHANNEL_BIT,
            deny: 0,
        }]),
    ];
    let rows = build_chan_rows(&channels, "", &Some(ctx()));
    // The category matches the empty filter, the inheriting child is
    // hidden by the category's deny, the child with its own allow shows.
    assert_eq!(rows.len(), 2);
    assert_eq!(rows[1].idx, 2);
}

#[test]
fn channel_filter_is_case_insensitive() {
    let channels = vec![chan("1", "GENERAL", 0, None, Vec::new())];
    let rows = build_chan_rows(&channels, "gen", &Some(ctx()));
    assert_eq!(rows.len(), 1);
    let none = build_chan_rows(&channels, "xyz", &Some(ctx()));
    assert_eq!(none.len(), 0);
}

#[test]
fn no_context_means_nothing_readable() {
    let channels = vec![chan("1", "general", 0, None, Vec::new())];
    let rows = build_chan_rows(&channels, "", &None);
    assert_eq!(rows.len(), 0);
}
