//! The widget-manifest migrations themselves, oldest first: repairing
//! widget keys and labels, and replacing the stock weather and battery
//! widgets with their reworked element trees.

use vstd::prelude::*;

use crate::migration::{
    Dimensions, ManifestDoc, doc_key_text, doc_label_text, same_but_elements_dimensions,
    same_but_key_label,
};
use crate::text::{
    capitalize_first_letter, sanitize_relation, sanitize_string, upper_of,
};

verus! {

/// The label a manifest gets in place of the given one, or nothing where
/// the label is left alone: a known lowercase widget label is capitalized,
/// and a few legacy spellings are renamed outright.
pub open spec fn migrated_label(label: Seq<char>) -> Option<Seq<char>> {
    if label == "battery"@ || label == "disk"@ || label == "media"@ || label == "system"@ || label
        == "weather"@ {
        Some(upper_of(label[0]) + label.skip(1))
    } else if label == "GPT"@ {
        Some("ChatGPT"@)
    } else if label == "ram"@ {
        Some("RAM"@)
    } else if label == "datetime"@ {
        Some("Date & Time"@)
    } else {
        None
    }
}

/// How a manifest looks after the key-and-label repair: the key is the
/// sanitized old key, the label is renamed where the old label is a known
/// legacy spelling, and nothing else moves.
pub open spec fn fix_label_key_applied(pre: ManifestDoc, post: ManifestDoc) -> bool {
    &&& same_but_key_label(pre, post)
    &&& post.key is Some
    &&& sanitize_relation(doc_key_text(pre), post.key->0@)
    &&& (match migrated_label(doc_label_text(pre)) {
        Some(l) => post.label is Some && post.label->0@ == l,
        None => post.label == pre.label,
    })
}

/// Repairs widget keys (sanitizing them) and widget labels (renaming the
/// legacy spellings).
pub struct FixLabelKey;

impl FixLabelKey {
    pub fn name(&self) -> (r: &'static str)
        ensures
            r@ == "20250910172425_fix_label_key"@,
    {
        "20250910172425_fix_label_key"
    }

    pub fn up(&self, doc: &mut ManifestDoc)
        ensures
            fix_label_key_applied(*old(doc), *final(doc)),
    {
        let key = match &doc.key {
            Some(s) => s.clone(),
            None => String::new(),
        };
        let label = match &doc.label {
            Some(s) => s.clone(),
            None => String::new(),
        };
        // The renames run one after the other against the old label, so the
        // verifier must see that no two of these label spellings coincide.
        proof {
            reveal_strlit("battery");
            reveal_strlit("disk");
            reveal_strlit("media");
            reveal_strlit("system");
            reveal_strlit("weather");
            reveal_strlit("GPT");
            reveal_strlit("ram");
            reveal_strlit("datetime");
            assert("GPT"@ != "ram"@) by {
                assert("GPT"@[0] == 'G');
                assert("ram"@[0] == 'r');
            }
            assert("GPT"@ != "datetime"@) by {
                assert("GPT"@[0] == 'G');
                assert("datetime"@[0] == 'd');
            }
            assert("ram"@ != "datetime"@) by {
                assert("ram"@[0] == 'r');
                assert("datetime"@[0] == 'd');
            }
        }
        doc.key = Some(sanitize_string(key.as_str()));
        if label == "battery".to_owned() || label == "disk".to_owned() || label
            == "media".to_owned() || label == "system".to_owned() || label
            == "weather".to_owned() {
            doc.label = Some(capitalize_first_letter(label.as_str()));
        }
        if label == "GPT".to_owned() {
            doc.label = Some("ChatGPT".to_owned());
        }
        if label == "ram".to_owned() {
            doc.label = Some("RAM".to_owned());
        }
        if label == "datetime".to_owned() {
            doc.label = Some("Date & Time".to_owned());
        }
    }

    /// No rollback is defined for this migration: the manifest is left as
    /// it is.
    pub fn down(&self, doc: &mut ManifestDoc)
        ensures
            *final(doc) == *old(doc),
    {
    }
}

/// The element tree the reworked weather widget is made of.
pub open spec fn weather_elements_text() -> Seq<char> {
    r##"[{"children":[{"data":{"alt":"image","src":"{{weather:icon}}"},"id":"image-mvbh","label":"image-mvbh","styles":{"height":"80px","width":"80px"},"type":"image"},{"children":[{"data":{"text":"<h2><strong>{{weather:temperature_celsius}}</strong></h2>"},"id":"text-hJJR","label":"text-hJJR","styles":{"fontSize":"16px","lineHeight":"16px","textAlign":"left"},"type":"text"},{"data":{"text":"<p>{{weather:city}}, {{weather:country}}</p>"},"id":"text-DIX2","label":"text-DIX2","styles":{"fontSize":"14px","lineHeight":"14px"},"type":"text"}],"data":{},"id":"container-h6Jt","label":"container-h6Jt","styles":{"background":"transparent","borderRadius":2,"display":"flex","flex":1,"flexDirection":"column","gap":"10px","height":"100%","justifyContent":"center","padding":5,"width":"100%"},"type":"container"}],"data":{},"id":"container","label":"container","styles":{"alignItems":"center","background":"transparent","backgroundColor":"rgba(0, 0, 0, 1)","backgroundImage":"","borderRadius":"10px","display":"flex","flex":1,"gap":"10px","justifyContent":"center","padding":"10px","width":"100%"},"type":"container"}]"##@
}

/// The element tree the reworked battery widget is made of.
pub open spec fn battery_elements_text() -> Seq<char> {
    r##"[{"children":[{"data":{"text":"<p>Battery</p>"},"id":"text-9Hw8","label":"text-9Hw8","styles":{"fontSize":"20px","fontWeight":"bold","lineHeight":"20px"},"type":"text"},{"children":[{"data":{"text":"<p>Charge ({{system:battery_charge}}%)</p>"},"id":"text-Vnhb","label":"text-Vnhb","styles":{"fontSize":"16px","lineHeight":"16px"},"type":"text"},{"data":{"maxValue":"100","thickness":"large","value":"{{system:battery_charge}}"},"id":"progress-WxKK","styles":{"padding":0},"type":"progress"},{"children":[{"data":{"text":"<p>Health ({{system:battery_health}}%)</p>"},"id":"text-vEEY","label":"text-vEEY","styles":{"fontSize":"16px","lineHeight":"16px"},"type":"text"},{"data":{"text":"<p>{{system:battery_cycles}} cycles</p>"},"id":"text-0LFf","label":"text-0LFf","styles":{"fontSize":"12px","lineHeight":"12px"},"type":"text"}],"data":{},"id":"container-QcYa","label":"container-QcYa","styles":{"alignItems":"center","background":"transparent","borderRadius":2,"display":"flex","flex":1,"height":"100%","justifyContent":"space-between","padding":"0px","width":"100%"},"type":"container"},{"data":{"maxValue":"100","thickness":"large","value":"{{system:battery_health}}"},"id":"progress-wqK8","label":"progress-wqK8","styles":{"padding":0},"type":"progress"},{"children":[],"id":"container-DlyG","styles":{"background":"transparent","borderRadius":2,"display":"flex","flex":1,"height":"100%","padding":5,"width":"100%"},"type":"container"}],"data":{},"id":"container-VT9w","label":"container-VT9w","styles":{"background":"transparent","borderRadius":2,"display":"flex","flex":1,"flexDirection":"column","gap":"10px","height":"100%","padding":"0px","width":"100%"},"type":"container"}],"data":{},"id":"container","label":"container","styles":{"background":"transparent","backgroundColor":"#000000ff","borderRadius":"10px","display":"flex","flex":1,"flexDirection":"column","gap":"15px","padding":"10px","width":"100%"},"type":"container"}]"##@
}

/// How a manifest looks after the weather rework: a manifest keyed
/// "weather" gets the reworked element tree and its dimensions; any other
/// manifest is untouched.
pub open spec fn update_weather_applied(pre: ManifestDoc, post: ManifestDoc) -> bool {
    if doc_key_text(pre) == "weather"@ {
        &&& same_but_elements_dimensions(pre, post)
        &&& post.elements is Some && post.elements->0@ == weather_elements_text()
        &&& post.dimensions == Some(Dimensions { width: 270, height: 100 })
    } else {
        post == pre
    }
}

/// How a manifest looks after the battery rework.
pub open spec fn update_battery_applied(pre: ManifestDoc, post: ManifestDoc) -> bool {
    if doc_key_text(pre) == "battery"@ {
        &&& same_but_elements_dimensions(pre, post)
        &&& post.elements is Some && post.elements->0@ == battery_elements_text()
        &&& post.dimensions == Some(Dimensions { width: 315, height: 135 })
    } else {
        post == pre
    }
}

/// Replaces the stock weather widget's element tree and dimensions.
pub struct UpdateWeather;

impl UpdateWeather {
    pub fn name(&self) -> (r: &'static str)
        ensures
            r@ == "20260104194741_update_weather"@,
    {
        "20260104194741_update_weather"
    }

    pub fn up(&self, doc: &mut ManifestDoc)
        ensures
            update_weather_applied(*old(doc), *final(doc)),
    {
        let key = match &doc.key {
            Some(s) => s.clone(),
            None => String::new(),
        };
        if key == "weather".to_owned() {
            doc.elements = Some(r##"[{"children":[{"data":{"alt":"image","src":"{{weather:icon}}"},"id":"image-mvbh","label":"image-mvbh","styles":{"height":"80px","width":"80px"},"type":"image"},{"children":[{"data":{"text":"<h2><strong>{{weather:temperature_celsius}}</strong></h2>"},"id":"text-hJJR","label":"text-hJJR","styles":{"fontSize":"16px","lineHeight":"16px","textAlign":"left"},"type":"text"},{"data":{"text":"<p>{{weather:city}}, {{weather:country}}</p>"},"id":"text-DIX2","label":"text-DIX2","styles":{"fontSize":"14px","lineHeight":"14px"},"type":"text"}],"data":{},"id":"container-h6Jt","label":"container-h6Jt","styles":{"background":"transparent","borderRadius":2,"display":"flex","flex":1,"flexDirection":"column","gap":"10px","height":"100%","justifyContent":"center","padding":5,"width":"100%"},"type":"container"}],"data":{},"id":"container","label":"container","styles":{"alignItems":"center","background":"transparent","backgroundColor":"rgba(0, 0, 0, 1)","backgroundImage":"","borderRadius":"10px","display":"flex","flex":1,"gap":"10px","justifyContent":"center","padding":"10px","width":"100%"},"type":"container"}]"##.to_owned());
            doc.dimensions = Some(Dimensions { width: 270, height: 100 });
        }
    }

    /// No rollback is defined for this migration: the manifest is left as
    /// it is.
    pub fn down(&self, doc: &mut ManifestDoc)
        ensures
            *final(doc) == *old(doc),
    {
    }
}

/// Replaces the stock battery widget's element tree and dimensions.
pub struct UpdateBattery;

impl UpdateBattery {
    pub fn name(&self) -> (r: &'static str)
        ensures
            r@ == "20260104194931_update_battery"@,
    {
        "20260104194931_update_battery"
    }

    pub fn up(&self, doc: &mut ManifestDoc)
        ensures
            update_battery_applied(*old(doc), *final(doc)),
    {
        let key = match &doc.key {
            Some(s) => s.clone(),
            None => String::new(),
        };
        if key == "battery".to_owned() {
            doc.elements = Some(r##"[{"children":[{"data":{"text":"<p>Battery</p>"},"id":"text-9Hw8","label":"text-9Hw8","styles":{"fontSize":"20px","fontWeight":"bold","lineHeight":"20px"},"type":"text"},{"children":[{"data":{"text":"<p>Charge ({{system:battery_charge}}%)</p>"},"id":"text-Vnhb","label":"text-Vnhb","styles":{"fontSize":"16px","lineHeight":"16px"},"type":"text"},{"data":{"maxValue":"100","thickness":"large","value":"{{system:battery_charge}}"},"id":"progress-WxKK","styles":{"padding":0},"type":"progress"},{"children":[{"data":{"text":"<p>Health ({{system:battery_health}}%)</p>"},"id":"text-vEEY","label":"text-vEEY","styles":{"fontSize":"16px","lineHeight":"16px"},"type":"text"},{"data":{"text":"<p>{{system:battery_cycles}} cycles</p>"},"id":"text-0LFf","label":"text-0LFf","styles":{"fontSize":"12px","lineHeight":"12px"},"type":"text"}],"data":{},"id":"container-QcYa","label":"container-QcYa","styles":{"alignItems":"center","background":"transparent","borderRadius":2,"display":"flex","flex":1,"height":"100%","justifyContent":"space-between","padding":"0px","width":"100%"},"type":"container"},{"data":{"maxValue":"100","thickness":"large","value":"{{system:battery_health}}"},"id":"progress-wqK8","label":"progress-wqK8","styles":{"padding":0},"type":"progress"},{"children":[],"id":"container-DlyG","styles":{"background":"transparent","borderRadius":2,"display":"flex","flex":1,"height":"100%","padding":5,"width":"100%"},"type":"container"}],"data":{},"id":"container-VT9w","label":"container-VT9w","styles":{"background":"transparent","borderRadius":2,"display":"flex","flex":1,"flexDirection":"column","gap":"10px","height":"100%","padding":"0px","width":"100%"},"type":"container"}],"data":{},"id":"container","label":"container","styles":{"background":"transparent","backgroundColor":"#000000ff","borderRadius":"10px","display":"flex","flex":1,"flexDirection":"column","gap":"15px","padding":"10px","width":"100%"},"type":"container"}]"##.to_owned());
            doc.dimensions = Some(Dimensions { width: 315, height: 135 });
        }
    }

    /// No rollback is defined for this migration: the manifest is left as
    /// it is.
    pub fn down(&self, doc: &mut ManifestDoc)
        ensures
            *final(doc) == *old(doc),
    {
    }
}

} // verus!
