use blrs::config::SiteEnv;
use blrs::model::err::ErrCode;
use blrs::model::handler::site::SocialType;
use blrs::repo::site::SiteRow;
use blrs::repo::social::SocialRow;
use blrs::service::site::{CacheRead, LoadAction, SiteContext, cache_step, context_from_rows, seed_fields};

fn site(name: Option<&str>) -> SiteRow {
    SiteRow {
        id: "s".to_string(),
        site_name: name.map(str::to_string),
        site_icon: Some("i".to_string()),
        banner_image: None,
        icp: None,
        copyright: Some("c".to_string()),
        about_content: Some("about".to_string()),
        created_at: 5,
    }
}

fn social(t: &str, v: &str) -> SocialRow {
    SocialRow { id: v.to_string(), social_type: t.to_string(), icon: None, value: v.to_string(), created_at: 1 }
}

#[test]
fn unset_site_is_not_served() {
    let e = context_from_rows(None, vec![]).unwrap_err();
    assert_eq!(e.code, ErrCode::Internal);
    assert_eq!(e.internal, "站点尚未初始化, 请先创建站点信息");
    assert!(context_from_rows(Some(site(None)), vec![]).is_err());
    assert!(context_from_rows(Some(site(Some("n"))), vec![]).is_ok());
}

#[test]
fn context_views() {
    let ctx = SiteContext {
        site: site(Some("博客")),
        social: vec![social("Account", "a"), social("weird", "w"), social("Link", "l")],
    };
    let h = ctx.home_site();
    assert_eq!(h.name, "博客");
    assert_eq!(h.icon.as_deref(), Some("i"));
    let a = ctx.about_site();
    assert_eq!(a.about.as_deref(), Some("about"));
    assert_eq!(a.create_at, 5);
    let s = ctx.social();
    assert_eq!(s.len(), 2);
    assert_eq!(s[0].social_type, SocialType::Account);
    assert_eq!(s[1].value, "l");
}

#[test]
fn seeding_needs_a_name() {
    let env = SiteEnv { name: None, icon: Some("i".to_string()), banner: None, copyright: None };
    assert!(seed_fields(&env).is_none());
    let env = SiteEnv {
        name: Some("n".to_string()),
        icon: Some("i".to_string()),
        banner: Some("b".to_string()),
        copyright: None,
    };
    let f = seed_fields(&env).unwrap();
    assert_eq!((f.name, f.icon, f.banner, f.icp, f.copyright, f.about), ("n", Some("i"), Some("b"), None, None, None));
}

#[test]
fn cache_problems_fall_through_to_the_database() {
    for read in [CacheRead::Unavailable, CacheRead::Failed, CacheRead::Miss, CacheRead::Unreadable] {
        assert!(matches!(cache_step(read), LoadAction::FromDb));
    }
    let ctx = SiteContext { site: site(Some("blog")), social: vec![social("Link", "https://x")] };
    match cache_step(CacheRead::Hit(ctx)) {
        LoadAction::Reply(c) => {
            assert_eq!(c.site.site_name.as_deref(), Some("blog"));
            assert_eq!(c.social.len(), 1);
        }
        LoadAction::FromDb => panic!("a readable cached context is served"),
    }
}
