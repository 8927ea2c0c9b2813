//! The fixed byte strings of the HTTP and mail surfaces: redirect
//! targets, user-facing messages, HTML fragments and mail templates, each
//! as a spec sequence with its executable counterpart.

use vstd::prelude::*;

verus! {

/// Spec: the bytes of `"Authentication failed"`.
pub open spec fn authentication_failed_text() -> Seq<u8> {
    seq![65u8, 117u8, 116u8, 104u8, 101u8, 110u8, 116u8, 105u8, 99u8, 97u8, 116u8, 105u8, 111u8, 110u8, 32u8, 102u8, 97u8, 105u8, 108u8, 101u8, 100u8]
}

/// The bytes of `"Authentication failed"`.
pub fn authentication_failed() -> (r: Vec<u8>)
    ensures
        r@ == authentication_failed_text(),
{
    let mut v: Vec<u8> = Vec::new();
    v.push(65);
    v.push(117);
    v.push(116);
    v.push(104);
    v.push(101);
    v.push(110);
    v.push(116);
    v.push(105);
    v.push(99);
    v.push(97);
    v.push(116);
    v.push(105);
    v.push(111);
    v.push(110);
    v.push(32);
    v.push(102);
    v.push(97);
    v.push(105);
    v.push(108);
    v.push(101);
    v.push(100);
    proof {
        assert(v@ =~= authentication_failed_text());
    }
    v
}

/// Spec: the bytes of `"Something went wrong"`.
pub open spec fn something_went_wrong_text() -> Seq<u8> {
    seq![83u8, 111u8, 109u8, 101u8, 116u8, 104u8, 105u8, 110u8, 103u8, 32u8, 119u8, 101u8, 110u8, 116u8, 32u8, 119u8, 114u8, 111u8, 110u8, 103u8]
}

/// The bytes of `"Something went wrong"`.
pub fn something_went_wrong() -> (r: Vec<u8>)
    ensures
        r@ == something_went_wrong_text(),
{
    let mut v: Vec<u8> = Vec::new();
    v.push(83);
    v.push(111);
    v.push(109);
    v.push(101);
    v.push(116);
    v.push(104);
    v.push(105);
    v.push(110);
    v.push(103);
    v.push(32);
    v.push(119);
    v.push(101);
    v.push(110);
    v.push(116);
    v.push(32);
    v.push(119);
    v.push(114);
    v.push(111);
    v.push(110);
    v.push(103);
    proof {
        assert(v@ =~= something_went_wrong_text());
    }
    v
}

/// Spec: the bytes of `"/admin/dashboard"`.
pub open spec fn admin_dashboard_path_text() -> Seq<u8> {
    seq![47u8, 97u8, 100u8, 109u8, 105u8, 110u8, 47u8, 100u8, 97u8, 115u8, 104u8, 98u8, 111u8, 97u8, 114u8, 100u8]
}

/// The bytes of `"/admin/dashboard"`.
pub fn admin_dashboard_path() -> (r: Vec<u8>)
    ensures
        r@ == admin_dashboard_path_text(),
{
    let mut v: Vec<u8> = Vec::new();
    v.push(47);
    v.push(97);
    v.push(100);
    v.push(109);
    v.push(105);
    v.push(110);
    v.push(47);
    v.push(100);
    v.push(97);
    v.push(115);
    v.push(104);
    v.push(98);
    v.push(111);
    v.push(97);
    v.push(114);
    v.push(100);
    proof {
        assert(v@ =~= admin_dashboard_path_text());
    }
    v
}

/// Spec: the bytes of `"/login"`.
pub open spec fn login_path_text() -> Seq<u8> {
    seq![47u8, 108u8, 111u8, 103u8, 105u8, 110u8]
}

/// The bytes of `"/login"`.
pub fn login_path() -> (r: Vec<u8>)
    ensures
        r@ == login_path_text(),
{
    let mut v: Vec<u8> = Vec::new();
    v.push(47);
    v.push(108);
    v.push(111);
    v.push(103);
    v.push(105);
    v.push(110);
    proof {
        assert(v@ =~= login_path_text());
    }
    v
}

/// Spec: the bytes of `"/login?error="`.
pub open spec fn login_error_query_text() -> Seq<u8> {
    seq![47u8, 108u8, 111u8, 103u8, 105u8, 110u8, 63u8, 101u8, 114u8, 114u8, 111u8, 114u8, 61u8]
}

/// The bytes of `"/login?error="`.
pub fn login_error_query() -> (r: Vec<u8>)
    ensures
        r@ == login_error_query_text(),
{
    let mut v: Vec<u8> = Vec::new();
    v.push(47);
    v.push(108);
    v.push(111);
    v.push(103);
    v.push(105);
    v.push(110);
    v.push(63);
    v.push(101);
    v.push(114);
    v.push(114);
    v.push(111);
    v.push(114);
    v.push(61);
    proof {
        assert(v@ =~= login_error_query_text());
    }
    v
}

/// Spec: the bytes of `"&tag="`.
pub open spec fn tag_query_text() -> Seq<u8> {
    seq![38u8, 116u8, 97u8, 103u8, 61u8]
}

/// The bytes of `"&tag="`.
pub fn tag_query() -> (r: Vec<u8>)
    ensures
        r@ == tag_query_text(),
{
    let mut v: Vec<u8> = Vec::new();
    v.push(38);
    v.push(116);
    v.push(97);
    v.push(103);
    v.push(61);
    proof {
        assert(v@ =~= tag_query_text());
    }
    v
}

/// Spec: the bytes of `"<p><i>"`.
pub open spec fn flash_open_text() -> Seq<u8> {
    seq![60u8, 112u8, 62u8, 60u8, 105u8, 62u8]
}

/// The bytes of `"<p><i>"`.
pub fn flash_open() -> (r: Vec<u8>)
    ensures
        r@ == flash_open_text(),
{
    let mut v: Vec<u8> = Vec::new();
    v.push(60);
    v.push(112);
    v.push(62);
    v.push(60);
    v.push(105);
    v.push(62);
    proof {
        assert(v@ =~= flash_open_text());
    }
    v
}

/// Spec: the bytes of `"</i></p>"`.
pub open spec fn flash_close_text() -> Seq<u8> {
    seq![60u8, 47u8, 105u8, 62u8, 60u8, 47u8, 112u8, 62u8]
}

/// The bytes of `"</i></p>"`.
pub fn flash_close() -> (r: Vec<u8>)
    ensures
        r@ == flash_close_text(),
{
    let mut v: Vec<u8> = Vec::new();
    v.push(60);
    v.push(47);
    v.push(105);
    v.push(62);
    v.push(60);
    v.push(47);
    v.push(112);
    v.push(62);
    proof {
        assert(v@ =~= flash_close_text());
    }
    v
}

/// Spec: the bytes of `"&amp;"`.
pub open spec fn amp_entity_text() -> Seq<u8> {
    seq![38u8, 97u8, 109u8, 112u8, 59u8]
}

/// The bytes of `"&amp;"`.
pub fn amp_entity() -> (r: Vec<u8>)
    ensures
        r@ == amp_entity_text(),
{
    let mut v: Vec<u8> = Vec::new();
    v.push(38);
    v.push(97);
    v.push(109);
    v.push(112);
    v.push(59);
    proof {
        assert(v@ =~= amp_entity_text());
    }
    v
}

/// Spec: the bytes of `"&lt;"`.
pub open spec fn lt_entity_text() -> Seq<u8> {
    seq![38u8, 108u8, 116u8, 59u8]
}

/// The bytes of `"&lt;"`.
pub fn lt_entity() -> (r: Vec<u8>)
    ensures
        r@ == lt_entity_text(),
{
    let mut v: Vec<u8> = Vec::new();
    v.push(38);
    v.push(108);
    v.push(116);
    v.push(59);
    proof {
        assert(v@ =~= lt_entity_text());
    }
    v
}

/// Spec: the bytes of `"&gt;"`.
pub open spec fn gt_entity_text() -> Seq<u8> {
    seq![38u8, 103u8, 116u8, 59u8]
}

/// The bytes of `"&gt;"`.
pub fn gt_entity() -> (r: Vec<u8>)
    ensures
        r@ == gt_entity_text(),
{
    let mut v: Vec<u8> = Vec::new();
    v.push(38);
    v.push(103);
    v.push(116);
    v.push(59);
    proof {
        assert(v@ =~= gt_entity_text());
    }
    v
}

/// Spec: the bytes of `"&quot;"`.
pub open spec fn quot_entity_text() -> Seq<u8> {
    seq![38u8, 113u8, 117u8, 111u8, 116u8, 59u8]
}

/// The bytes of `"&quot;"`.
pub fn quot_entity() -> (r: Vec<u8>)
    ensures
        r@ == quot_entity_text(),
{
    let mut v: Vec<u8> = Vec::new();
    v.push(38);
    v.push(113);
    v.push(117);
    v.push(111);
    v.push(116);
    v.push(59);
    proof {
        assert(v@ =~= quot_entity_text());
    }
    v
}

/// Spec: the bytes of `"&#x27;"`.
pub open spec fn apos_entity_text() -> Seq<u8> {
    seq![38u8, 35u8, 120u8, 50u8, 55u8, 59u8]
}

/// The bytes of `"&#x27;"`.
pub fn apos_entity() -> (r: Vec<u8>)
    ensures
        r@ == apos_entity_text(),
{
    let mut v: Vec<u8> = Vec::new();
    v.push(38);
    v.push(35);
    v.push(120);
    v.push(50);
    v.push(55);
    v.push(59);
    proof {
        assert(v@ =~= apos_entity_text());
    }
    v
}

/// Spec: the bytes of `"Welcome "`.
pub open spec fn welcome_prefix_text() -> Seq<u8> {
    seq![87u8, 101u8, 108u8, 99u8, 111u8, 109u8, 101u8, 32u8]
}

/// The bytes of `"Welcome "`.
pub fn welcome_prefix() -> (r: Vec<u8>)
    ensures
        r@ == welcome_prefix_text(),
{
    let mut v: Vec<u8> = Vec::new();
    v.push(87);
    v.push(101);
    v.push(108);
    v.push(99);
    v.push(111);
    v.push(109);
    v.push(101);
    v.push(32);
    proof {
        assert(v@ =~= welcome_prefix_text());
    }
    v
}

/// Spec: the bytes of `"!"`.
pub open spec fn welcome_suffix_text() -> Seq<u8> {
    seq![33u8]
}

/// The bytes of `"!"`.
pub fn welcome_suffix() -> (r: Vec<u8>)
    ensures
        r@ == welcome_suffix_text(),
{
    let mut v: Vec<u8> = Vec::new();
    v.push(33);
    proof {
        assert(v@ =~= welcome_suffix_text());
    }
    v
}

/// Spec: the bytes of `"/subscriptions/confirm?subscription_token="`.
pub open spec fn confirm_path_text() -> Seq<u8> {
    seq![47u8, 115u8, 117u8, 98u8, 115u8, 99u8, 114u8, 105u8, 112u8, 116u8, 105u8, 111u8, 110u8, 115u8, 47u8, 99u8, 111u8, 110u8, 102u8, 105u8, 114u8, 109u8, 63u8, 115u8, 117u8, 98u8, 115u8, 99u8, 114u8, 105u8, 112u8, 116u8, 105u8, 111u8, 110u8, 95u8, 116u8, 111u8, 107u8, 101u8, 110u8, 61u8]
}

/// The bytes of `"/subscriptions/confirm?subscription_token="`.
pub fn confirm_path() -> (r: Vec<u8>)
    ensures
        r@ == confirm_path_text(),
{
    let mut v: Vec<u8> = Vec::new();
    v.push(47);
    v.push(115);
    v.push(117);
    v.push(98);
    v.push(115);
    v.push(99);
    v.push(114);
    v.push(105);
    v.push(112);
    v.push(116);
    v.push(105);
    v.push(111);
    v.push(110);
    v.push(115);
    v.push(47);
    v.push(99);
    v.push(111);
    v.push(110);
    v.push(102);
    v.push(105);
    v.push(114);
    v.push(109);
    v.push(63);
    v.push(115);
    v.push(117);
    v.push(98);
    v.push(115);
    v.push(99);
    v.push(114);
    v.push(105);
    v.push(112);
    v.push(116);
    v.push(105);
    v.push(111);
    v.push(110);
    v.push(95);
    v.push(116);
    v.push(111);
    v.push(107);
    v.push(101);
    v.push(110);
    v.push(61);
    proof {
        assert(v@ =~= confirm_path_text());
    }
    v
}

/// Spec: the bytes of `"Welcome!"`.
pub open spec fn email_subject_text() -> Seq<u8> {
    seq![87u8, 101u8, 108u8, 99u8, 111u8, 109u8, 101u8, 33u8]
}

/// The bytes of `"Welcome!"`.
pub fn email_subject() -> (r: Vec<u8>)
    ensures
        r@ == email_subject_text(),
{
    let mut v: Vec<u8> = Vec::new();
    v.push(87);
    v.push(101);
    v.push(108);
    v.push(99);
    v.push(111);
    v.push(109);
    v.push(101);
    v.push(33);
    proof {
        assert(v@ =~= email_subject_text());
    }
    v
}

/// Spec: the bytes of `"Welcome to our newsletter!<br />Click <a href=\""`.
pub open spec fn email_html_open_text() -> Seq<u8> {
    seq![87u8, 101u8, 108u8, 99u8, 111u8, 109u8, 101u8, 32u8, 116u8, 111u8, 32u8, 111u8, 117u8, 114u8, 32u8, 110u8, 101u8, 119u8, 115u8, 108u8, 101u8, 116u8, 116u8, 101u8, 114u8, 33u8, 60u8, 98u8, 114u8, 32u8, 47u8, 62u8, 67u8, 108u8, 105u8, 99u8, 107u8, 32u8, 60u8, 97u8, 32u8, 104u8, 114u8, 101u8, 102u8, 61u8, 34u8]
}

/// The bytes of `"Welcome to our newsletter!<br />Click <a href=\""`.
pub fn email_html_open() -> (r: Vec<u8>)
    ensures
        r@ == email_html_open_text(),
{
    let mut v: Vec<u8> = Vec::new();
    v.push(87);
    v.push(101);
    v.push(108);
    v.push(99);
    v.push(111);
    v.push(109);
    v.push(101);
    v.push(32);
    v.push(116);
    v.push(111);
    v.push(32);
    v.push(111);
    v.push(117);
    v.push(114);
    v.push(32);
    v.push(110);
    v.push(101);
    v.push(119);
    v.push(115);
    v.push(108);
    v.push(101);
    v.push(116);
    v.push(116);
    v.push(101);
    v.push(114);
    v.push(33);
    v.push(60);
    v.push(98);
    v.push(114);
    v.push(32);
    v.push(47);
    v.push(62);
    v.push(67);
    v.push(108);
    v.push(105);
    v.push(99);
    v.push(107);
    v.push(32);
    v.push(60);
    v.push(97);
    v.push(32);
    v.push(104);
    v.push(114);
    v.push(101);
    v.push(102);
    v.push(61);
    v.push(34);
    proof {
        assert(v@ =~= email_html_open_text());
    }
    v
}

/// Spec: the bytes of `"\">here</a> to confirm your subscription."`.
pub open spec fn email_html_close_text() -> Seq<u8> {
    seq![34u8, 62u8, 104u8, 101u8, 114u8, 101u8, 60u8, 47u8, 97u8, 62u8, 32u8, 116u8, 111u8, 32u8, 99u8, 111u8, 110u8, 102u8, 105u8, 114u8, 109u8, 32u8, 121u8, 111u8, 117u8, 114u8, 32u8, 115u8, 117u8, 98u8, 115u8, 99u8, 114u8, 105u8, 112u8, 116u8, 105u8, 111u8, 110u8, 46u8]
}

/// The bytes of `"\">here</a> to confirm your subscription."`.
pub fn email_html_close() -> (r: Vec<u8>)
    ensures
        r@ == email_html_close_text(),
{
    let mut v: Vec<u8> = Vec::new();
    v.push(34);
    v.push(62);
    v.push(104);
    v.push(101);
    v.push(114);
    v.push(101);
    v.push(60);
    v.push(47);
    v.push(97);
    v.push(62);
    v.push(32);
    v.push(116);
    v.push(111);
    v.push(32);
    v.push(99);
    v.push(111);
    v.push(110);
    v.push(102);
    v.push(105);
    v.push(114);
    v.push(109);
    v.push(32);
    v.push(121);
    v.push(111);
    v.push(117);
    v.push(114);
    v.push(32);
    v.push(115);
    v.push(117);
    v.push(98);
    v.push(115);
    v.push(99);
    v.push(114);
    v.push(105);
    v.push(112);
    v.push(116);
    v.push(105);
    v.push(111);
    v.push(110);
    v.push(46);
    proof {
        assert(v@ =~= email_html_close_text());
    }
    v
}

/// Spec: the bytes of `"Welcome to our newsletter!\nVisit "`.
pub open spec fn email_text_open_text() -> Seq<u8> {
    seq![87u8, 101u8, 108u8, 99u8, 111u8, 109u8, 101u8, 32u8, 116u8, 111u8, 32u8, 111u8, 117u8, 114u8, 32u8, 110u8, 101u8, 119u8, 115u8, 108u8, 101u8, 116u8, 116u8, 101u8, 114u8, 33u8, 10u8, 86u8, 105u8, 115u8, 105u8, 116u8, 32u8]
}

/// The bytes of `"Welcome to our newsletter!\nVisit "`.
pub fn email_text_open() -> (r: Vec<u8>)
    ensures
        r@ == email_text_open_text(),
{
    let mut v: Vec<u8> = Vec::new();
    v.push(87);
    v.push(101);
    v.push(108);
    v.push(99);
    v.push(111);
    v.push(109);
    v.push(101);
    v.push(32);
    v.push(116);
    v.push(111);
    v.push(32);
    v.push(111);
    v.push(117);
    v.push(114);
    v.push(32);
    v.push(110);
    v.push(101);
    v.push(119);
    v.push(115);
    v.push(108);
    v.push(101);
    v.push(116);
    v.push(116);
    v.push(101);
    v.push(114);
    v.push(33);
    v.push(10);
    v.push(86);
    v.push(105);
    v.push(115);
    v.push(105);
    v.push(116);
    v.push(32);
    proof {
        assert(v@ =~= email_text_open_text());
    }
    v
}

/// Spec: the bytes of `" to confirm your subscription."`.
pub open spec fn email_text_close_text() -> Seq<u8> {
    seq![32u8, 116u8, 111u8, 32u8, 99u8, 111u8, 110u8, 102u8, 105u8, 114u8, 109u8, 32u8, 121u8, 111u8, 117u8, 114u8, 32u8, 115u8, 117u8, 98u8, 115u8, 99u8, 114u8, 105u8, 112u8, 116u8, 105u8, 111u8, 110u8, 46u8]
}

/// The bytes of `" to confirm your subscription."`.
pub fn email_text_close() -> (r: Vec<u8>)
    ensures
        r@ == email_text_close_text(),
{
    let mut v: Vec<u8> = Vec::new();
    v.push(32);
    v.push(116);
    v.push(111);
    v.push(32);
    v.push(99);
    v.push(111);
    v.push(110);
    v.push(102);
    v.push(105);
    v.push(114);
    v.push(109);
    v.push(32);
    v.push(121);
    v.push(111);
    v.push(117);
    v.push(114);
    v.push(32);
    v.push(115);
    v.push(117);
    v.push(98);
    v.push(115);
    v.push(99);
    v.push(114);
    v.push(105);
    v.push(112);
    v.push(116);
    v.push(105);
    v.push(111);
    v.push(110);
    v.push(46);
    proof {
        assert(v@ =~= email_text_close_text());
    }
    v
}

} // verus!
