//! The layout of a notification: a colored block meant to draw the user's attention.
use vstd::prelude::*;
use vstd::string::StringExecFns;
use crate::model::joined;

verus! {

/// The properties of a notification.
pub struct NotificationProps {
    /// The class of the component.
    pub class: String,
    /// The class of the close button.
    pub close_class: String,
    /// The color: `primary`, `link`, `info`, `success`, `warning` or `danger`; empty for none.
    pub color: String,
    /// The theme: `light`; empty for none.
    pub theme: String,
    /// Whether a handler is called when the close button is clicked.
    pub closable: bool,
    /// Whether the notification is visible.
    pub visible: bool,
}

/// What a notification is drawn as: the classes of its block, in order, and the
/// class of its close button when it has one.
pub struct NotificationLayout {
    pub classes: Vec<String>,
    pub close_button: Option<String>,
}

impl Default for NotificationProps {
    /// The class `notification`, the close button class `delete`, no color, no
    /// theme, no close handler, and hidden.
    fn default() -> (r: NotificationProps)
        ensures
            r.class@ == "notification"@,
            r.close_class@ == "delete"@,
            r.color@ == Seq::<char>::empty(),
            r.theme@ == Seq::<char>::empty(),
            !r.closable,
            !r.visible,
    {
        NotificationProps {
            class: "notification".to_owned(),
            close_class: "delete".to_owned(),
            color: String::new(),
            theme: String::new(),
            closable: false,
            visible: false,
        }
    }
}

/// The classes of a notification's block: its class; `is-` and its color when it
/// has one; `is-` and its theme when it has one; `is-hidden` when it is not visible.
pub open spec fn notification_classes(
    class: Seq<char>,
    color: Seq<char>,
    theme: Seq<char>,
    visible: bool,
) -> Seq<Seq<char>> {
    let with_color = if color.len() > 0 {
        seq![class, "is-"@ + color]
    } else {
        seq![class]
    };
    let with_theme = if theme.len() > 0 {
        with_color.push("is-"@ + theme)
    } else {
        with_color
    };
    if !visible {
        with_theme.push("is-hidden"@)
    } else {
        with_theme
    }
}

impl NotificationLayout {
    /// The classes as one attribute value, separated by spaces.
    pub fn class_attribute(&self) -> (r: String)
        ensures
            r@ == joined(self.classes@.map_values(|c: String| c@), " "@),
    {
        let ghost parts = self.classes@.map_values(|c: String| c@);
        let mut r = String::new();
        let n = self.classes.len();
        let mut i: usize = 0;
        while i < n
            invariant
                n == self.classes@.len(),
                parts == self.classes@.map_values(|c: String| c@),
                i <= n,
                r@ == joined(parts.take(i as int), " "@),
            decreases n - i,
        {
            assert(parts.take(i + 1).drop_last() =~= parts.take(i as int));
            if i > 0 {
                r.append(" ");
            }
            r.append(self.classes[i].as_str());
            i = i + 1;
        }
        assert(parts.take(n as int) =~= parts);
        r
    }
}

/// A simple colored block meant to draw the attention of the user to something:
/// its classes, and a close button when a close handler is set.
#[allow(non_snake_case)]
pub fn Notification(props: &NotificationProps) -> (r: NotificationLayout)
    ensures
        r.classes@.map_values(|c: String| c@) == notification_classes(
            props.class@,
            props.color@,
            props.theme@,
            props.visible,
        ),
        r.close_button matches Some(c) ==> props.closable && c@ == props.close_class@,
        r.close_button is None ==> !props.closable,
{
    let mut classes: Vec<String> = Vec::new();
    classes.push(props.class.clone());
    if !props.color.as_str().is_empty() {
        let mut c = "is-".to_owned();
        c.append(props.color.as_str());
        classes.push(c);
    }
    if !props.theme.as_str().is_empty() {
        let mut c = "is-".to_owned();
        c.append(props.theme.as_str());
        classes.push(c);
    }
    if !props.visible {
        classes.push("is-hidden".to_owned());
    }
    let close_button = if props.closable {
        Some(props.close_class.clone())
    } else {
        None
    };
    let r = NotificationLayout { classes, close_button };
    assert(r.classes@.map_values(|c: String| c@) =~= notification_classes(
        props.class@,
        props.color@,
        props.theme@,
        props.visible,
    ));
    r
}

} // verus!
