use blrs::handler::admin::article::{input_title, list_filter, normalize as normalize_article, parse_status, to_admin_detail, to_admin_list};
use blrs::handler::admin::friend::{normalize as normalize_friend, status_filter, to_admin as friend_admin};
use blrs::handler::admin::mail::{create_password, normalize as normalize_mail, update_password};
use blrs::handler::admin::site::normalize as normalize_site;
use blrs::handler::admin::social::{normalize as normalize_social, parse_type, to_admin as social_admin, type_str};
use blrs::handler::bff::{like_response, to_article_list, view_identity};
use blrs::handler::cron::{cleanup_before, cutoff_from};
use blrs::model::{ArticleStatus, LinkStatus};
use blrs::model::handler::ListQuery;
use blrs::model::handler::admin::article::ArticleInput;
use blrs::model::handler::admin::friend::FriendLinkInput;
use blrs::model::handler::admin::mail::MailConfigInput;
use blrs::model::handler::admin::site::SiteInput;
use blrs::model::handler::admin::social::SocialInput;
use blrs::model::handler::site::SocialType;
use blrs::repo::article::{ArticleDetailRow, ArticleListRow};
use blrs::repo::friend::FriendLinkRow;
use blrs::repo::social::SocialRow;
use blrs::util::Headers;

fn input(slug: &str) -> ArticleInput {
    ArticleInput {
        title: " 标题 ".to_string(),
        slug: slug.to_string(),
        cover: Some("  ".to_string()),
        synopsis: "摘要".to_string(),
        content: "正文".to_string(),
        tags: vec![" a ".to_string(), "a".to_string()],
        status: ArticleStatus::Pub,
    }
}

#[test]
fn article_input_is_normalized() {
    let a = normalize_article(input("hello-world")).unwrap();
    assert_eq!(a.title, "标题");
    assert_eq!(a.cover, None);
    assert_eq!(a.tags, vec!["a"]);
    assert_eq!(a.status, ArticleStatus::Pub);
    let e = normalize_article(input("a/b")).unwrap_err();
    assert_eq!(e.msg, "URL 别名不能包含 / ? #");
    let e = normalize_article(input("  ")).unwrap_err();
    assert_eq!(e.msg, "URL 别名不能为空");
    assert_eq!(input_title(&Ok(input("x"))), " 标题 ");
    assert_eq!(input_title(&Err("bad".to_string())), "");
}

#[test]
fn stored_statuses_fall_back() {
    assert_eq!(parse_status("Pub"), ArticleStatus::Pub);
    assert_eq!(parse_status("pub"), ArticleStatus::Draft);
    assert_eq!(parse_type("Account", "1"), SocialType::Account);
    assert_eq!(parse_type("x", "1"), SocialType::Link);
    assert_eq!(type_str(SocialType::Link), "Link");
}

#[test]
fn list_filters() {
    let q = ListQuery::from_query(Some("deleted=true&status=Draft"));
    assert_eq!(list_filter(&q).unwrap(), (true, Some(ArticleStatus::Draft)));
    let q = ListQuery::from_query(Some("status=draft"));
    assert_eq!(list_filter(&q).unwrap_err().msg, "status 只能是 Draft 或 Pub");
    let q = ListQuery::from_query(Some("status=Pass"));
    assert_eq!(status_filter(&q).unwrap(), Some(LinkStatus::Pass));
    let q = ListQuery::from_query(Some("status=Refused"));
    assert_eq!(status_filter(&q).unwrap_err().msg, "status 只能是 Review 或 Pass");
}

fn list_row() -> ArticleListRow {
    ArticleListRow {
        id: "1".to_string(),
        title: "t".to_string(),
        slug: "s".to_string(),
        cover: None,
        synopsis: None,
        likes: 2,
        status: "Pub".to_string(),
        created_at: 0,
        updated_at: Some(86400),
        views: 3,
        tags: vec!["x".to_string()],
    }
}

#[test]
fn article_rows_become_views() {
    let a = to_admin_list(&list_row());
    assert_eq!(a.create_at, "1970-01-01 08:00:00");
    assert_eq!(a.update_at.as_deref(), Some("1970-01-02 08:00:00"));
    assert!(a.deleted_at.is_none());
    let h = to_article_list(&list_row());
    assert_eq!((h.likes, h.views, h.create_at, h.update_at), (2, 3, 0, Some(86400)));
    let d = to_admin_detail(&ArticleDetailRow {
        id: "1".to_string(),
        title: "t".to_string(),
        slug: "s".to_string(),
        cover: None,
        synopsis: None,
        content: "c".to_string(),
        likes: 0,
        status: "Draft".to_string(),
        created_at: 0,
        updated_at: None,
        deleted_at: Some(0),
        views: 0,
        tags: vec![],
    });
    assert_eq!(d.deleted_at.as_deref(), Some("1970-01-01 08:00:00"));
    assert_eq!(d.status, ArticleStatus::Draft);
}

#[test]
fn friend_inputs_and_rows() {
    let ok = normalize_friend(FriendLinkInput {
        url: "https://f.com".to_string(),
        name: " F ".to_string(),
        intro: "i".to_string(),
        icon: None,
        email: Some("a@b.c".to_string()),
    })
    .unwrap();
    assert_eq!((ok.name.as_str(), ok.email.as_deref()), ("F", Some("a@b.c")));
    let e = normalize_friend(FriendLinkInput {
        url: "ftp://f.com".to_string(),
        name: String::new(),
        intro: String::new(),
        icon: None,
        email: None,
    })
    .unwrap_err();
    assert_eq!(e.msg, "站点地址必须以 http:// 或 https:// 开头");
    let f = friend_admin(&FriendLinkRow {
        id: "1".to_string(),
        site_name: "n".to_string(),
        site_url: "u".to_string(),
        site_intro: "i".to_string(),
        site_icon: None,
        feedback_status: "??".to_string(),
        created_at: 0,
    });
    assert_eq!(f.feedback_status, LinkStatus::Review);
}

fn mail_input(port: i32, password: Option<&str>) -> MailConfigInput {
    MailConfigInput {
        host: " smtp.x ".to_string(),
        port,
        username: "u".to_string(),
        password: password.map(str::to_string),
        from_addr: "f@x.y".to_string(),
        enable: true,
    }
}

#[test]
fn mail_inputs() {
    assert_eq!(normalize_mail(mail_input(0, None)).unwrap_err().msg, "端口必须在 1-65535 之间");
    let m = normalize_mail(mail_input(465, Some(""))).unwrap();
    assert_eq!(m.host, "smtp.x");
    assert_eq!(create_password(&m).unwrap_err().msg, "新建邮件配置时必须填写 SMTP 密码");
    assert_eq!(update_password(&m), None);
    let m = mail_input(465, Some("pw"));
    assert_eq!(create_password(&m).unwrap(), "pw");
    let f = m.as_fields(update_password(&m));
    assert_eq!((f.host, f.port, f.password), (" smtp.x ", 465, Some("pw")));
}

#[test]
fn site_and_social_inputs() {
    let s = normalize_site(SiteInput {
        name: " 站 ".to_string(),
        icon: None,
        banner: Some(" ".to_string()),
        icp: Some("x".repeat(101)),
        copyright: None,
        about: None,
    })
    .unwrap_err();
    assert_eq!(s.msg, "ICP 备案号不能超过 100 字");
    let ok = normalize_site(SiteInput {
        name: " 站 ".to_string(),
        icon: None,
        banner: Some(" ".to_string()),
        icp: None,
        copyright: None,
        about: Some(" a ".to_string()),
    })
    .unwrap();
    let f = ok.as_fields();
    assert_eq!((f.name, f.banner, f.about), ("站", None, Some("a")));
    let (t, icon, value) = normalize_social(SocialInput {
        social_type: SocialType::Account,
        icon: Some(" i ".to_string()),
        value: " v ".to_string(),
    })
    .unwrap();
    assert_eq!((t, icon.as_deref(), value.as_str()), (SocialType::Account, Some("i"), "v"));
    let a = social_admin(&SocialRow {
        id: "1".to_string(),
        social_type: "Account".to_string(),
        icon: None,
        value: "v".to_string(),
        created_at: 0,
    });
    assert_eq!(a.create_at, "1970-01-01 08:00:00");
}

#[test]
fn public_helpers() {
    let mut h = Headers::new();
    assert_eq!(view_identity(&h), "-");
    h.insert("x-real-ip", "7.7.7.7");
    assert_eq!(view_identity(&h), "7.7.7.7");
    assert_eq!(like_response("a".to_string(), Some(4)).unwrap().likes, 4);
    assert_eq!(like_response("a".to_string(), None).unwrap_err().msg, "文章不存在或未发布");
    let before = cleanup_before();
    assert!(before < blrs::util::time::now_secs() - 89 * 86400);
}

#[test]
fn cutoff_is_ninety_days_before_the_reading() {
    assert_eq!(cutoff_from(1_700_000_000), 1_700_000_000 - 7_776_000);
    assert_eq!(cutoff_from(0), -7_776_000);
}
