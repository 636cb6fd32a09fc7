use crate::domain::subscriber_email::{valid_email_of, SubscriberEmail};
use crate::domain::subscriber_name::{is_valid_name, SubscriberName};
use crate::routes::FormData;
use vstd::prelude::*;

verus! {

/// A name and an email address that both passed validation.
pub struct NewSubscriber {
    pub email: SubscriberEmail,
    pub name: SubscriberName,
}

impl NewSubscriber {
    pub open spec fn wf(&self) -> bool {
        self.email.wf() && self.name.wf()
    }

    /// Validates both fields of a submitted form, the name first; the error is
    /// that of the first field that fails.
    pub fn try_from(form_data: FormData) -> (r: Result<NewSubscriber, String>)
        ensures
            r is Ok <==> is_valid_name(form_data.name@) && valid_email_of(form_data.email@),
            r matches Ok(s) ==> s.wf() && s.name@ == form_data.name@ && s.email@
                == form_data.email@,
            r matches Err(m) ==> if !is_valid_name(form_data.name@) {
                m@ == "Invalid subscriber name "@ + form_data.name@
            } else {
                m@ == form_data.email@ + " is not a valid email"@
            },
    {
        let name = SubscriberName::parse(form_data.name)?;
        let email = SubscriberEmail::parse(form_data.email)?;
        Ok(NewSubscriber { name, email })
    }
}

} // verus!
