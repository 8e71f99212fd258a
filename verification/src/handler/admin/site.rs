//! Admin site settings: validation, the stored fields and the admin view.
use vstd::prelude::*;
use crate::model::err::{AppResult, ErrCode, is_client_error};
use crate::model::handler::admin::site::{SiteAdmin, SiteInput};
use crate::repo::site::{SiteFields, SiteRow};
use crate::service::site::name_or_empty;
use crate::util::{
    as_deref, blank_to_none, clone_opt, fits, opt_str_view, opt_view, optional_text, optional_text_spec,
    required_text, required_text_spec,
};
use crate::text::trim;
use crate::util::time::{fmt_ts, ts_text};

verus! {

/// The admin view of the site row; no password hash, which the row never holds.
pub fn to_admin(row: &SiteRow) -> (s: SiteAdmin)
    ensures
        s.id == row.id,
        s.name@ == name_or_empty(&row.site_name),
        opt_view(&s.icon) == opt_view(&row.site_icon),
        opt_view(&s.banner) == opt_view(&row.banner_image),
        opt_view(&s.icp) == opt_view(&row.icp),
        opt_view(&s.copyright) == opt_view(&row.copyright),
        opt_view(&s.about) == opt_view(&row.about_content),
        s.create_at@ == ts_text(row.created_at as int),
{
    SiteAdmin {
        id: row.id.clone(),
        name: match &row.site_name {
            Some(n) => n.clone(),
            None => String::new(),
        },
        icon: clone_opt(&row.site_icon),
        banner: clone_opt(&row.banner_image),
        icp: clone_opt(&row.icp),
        copyright: clone_opt(&row.copyright),
        about: clone_opt(&row.about_content),
        create_at: fmt_ts(row.created_at),
    }
}

/// A checked site input; the lengths are those of the columns.
#[derive(Debug)]
pub struct NormalizedSite {
    pub name: String,
    pub icon: Option<String>,
    pub banner: Option<String>,
    pub icp: Option<String>,
    pub copyright: Option<String>,
    pub about: Option<String>,
}

pub open spec fn site_view(n: NormalizedSite) -> (Seq<char>, Option<Seq<char>>, Option<Seq<char>>, Option<Seq<char>>, Option<Seq<char>>, Option<Seq<char>>) {
    (n.name@, opt_view(&n.icon), opt_view(&n.banner), opt_view(&n.icp), opt_view(&n.copyright), opt_view(&n.about))
}

/// The checks of a site input, in order: name, icon, banner, ICP number, copyright, about.
pub open spec fn site_input_spec(input: SiteInput) -> Result<(Seq<char>, Option<Seq<char>>, Option<Seq<char>>, Option<Seq<char>>, Option<Seq<char>>, Option<Seq<char>>), Seq<char>> {
    match required_text_spec(input.name@, "站点名称"@, 255) {
        Err(m) => Err(m),
        Ok(name) => match optional_text_spec(opt_view(&input.icon), "站点图标"@, 500) {
            Err(m) => Err(m),
            Ok(icon) => match optional_text_spec(opt_view(&input.banner), "Banner 图"@, 500) {
                Err(m) => Err(m),
                Ok(banner) => match optional_text_spec(opt_view(&input.icp), "ICP 备案号"@, 100) {
                    Err(m) => Err(m),
                    Ok(icp) => match optional_text_spec(opt_view(&input.copyright), "版权信息"@, 255) {
                        Err(m) => Err(m),
                        Ok(copyright) => match optional_text_spec(opt_view(&input.about), "关于内容"@, 20000) {
                            Err(m) => Err(m),
                            Ok(about) => Ok((name, icon, banner, icp, copyright, about)),
                        },
                    },
                },
            },
        },
    }
}

/// Saved site settings keep what the admin sent, trimmed: the name as its trimmed text, and
/// each optional field (icon, banner, ICP number, copyright, about) as its trimmed text when
/// sent non-blank, absent otherwise. Settings whose texts fit their columns, with a non-blank
/// name, are accepted.
pub proof fn lemma_saved_site_keeps_its_texts(input: SiteInput)
    ensures
        site_input_spec(input) matches Ok(w) ==> w == (
            trim(input.name@),
            blank_to_none(opt_view(&input.icon)),
            blank_to_none(opt_view(&input.banner)),
            blank_to_none(opt_view(&input.icp)),
            blank_to_none(opt_view(&input.copyright)),
            blank_to_none(opt_view(&input.about)),
        ),
        (0 < trim(input.name@).len() <= 255 && fits(opt_view(&input.icon), 500) && fits(
            opt_view(&input.banner),
            500,
        ) && fits(opt_view(&input.icp), 100) && fits(opt_view(&input.copyright), 255) && fits(
            opt_view(&input.about),
            20000,
        )) ==> site_input_spec(input) is Ok,
{
}

pub fn normalize(input: SiteInput) -> (r: AppResult<NormalizedSite>)
    ensures
        match (r, site_input_spec(input)) {
            (Ok(n), Ok(w)) => site_view(n) == w,
            (Err(e), Err(m)) => is_client_error(e, ErrCode::BadRequest, m),
            _ => false,
        },
{
    let name = required_text(input.name.as_str(), "站点名称", 255)?;
    let icon = optional_text(as_deref(&input.icon), "站点图标", 500)?;
    let banner = optional_text(as_deref(&input.banner), "Banner 图", 500)?;
    let icp = optional_text(as_deref(&input.icp), "ICP 备案号", 100)?;
    let copyright = optional_text(as_deref(&input.copyright), "版权信息", 255)?;
    let about = optional_text(as_deref(&input.about), "关于内容", 20000)?;
    Ok(NormalizedSite { name, icon, banner, icp, copyright, about })
}

impl NormalizedSite {
    /// The fields to store.
    pub fn as_fields(&self) -> (f: SiteFields<'_>)
        ensures
            f.name@ == self.name@,
            opt_str_view(f.icon) == opt_view(&self.icon),
            opt_str_view(f.banner) == opt_view(&self.banner),
            opt_str_view(f.icp) == opt_view(&self.icp),
            opt_str_view(f.copyright) == opt_view(&self.copyright),
            opt_str_view(f.about) == opt_view(&self.about),
    {
        SiteFields {
            name: self.name.as_str(),
            icon: as_deref(&self.icon),
            banner: as_deref(&self.banner),
            icp: as_deref(&self.icp),
            copyright: as_deref(&self.copyright),
            about: as_deref(&self.about),
        }
    }
}

} // verus!
