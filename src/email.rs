use vstd::prelude::*;

verus! {

/// The HTML body of the mail that lets vendor `name` reset its password
/// through the link built from its `id` and `token`.
pub open spec fn reset_password_body(name: Seq<char>, id: Seq<char>, token: Seq<char>) -> Seq<char> {
    "\n<p>Hello "@ + name + ",</p>\n\n<p>We have received a request to reset your password. To do this, simply use the link below and enter your email address.</p>\n\n<p>If you did not make this request, then you can safely ignore this email.</p>\n\n<a href=\"https://vendor.inlet.shop/password/"@
        + id + "/"@ + token + "\">\n    vendor.inlet.shop/password/"@ + id + "/"@ + token
        + "\n</a>\n\n<p>-Inlet Sites</p>\n"@
}

/// Writes the password-reset mail for a vendor.
pub fn reset_password(name: String, id: String, token: String) -> (r: String)
    ensures
        r@ == reset_password_body(name@, id@, token@),
{
    let mut s = String::from_str("\n<p>Hello ");
    s.append(name.as_str());
    s.append(",</p>\n\n<p>We have received a request to reset your password. To do this, simply use the link below and enter your email address.</p>\n\n<p>If you did not make this request, then you can safely ignore this email.</p>\n\n<a href=\"https://vendor.inlet.shop/password/");
    s.append(id.as_str());
    s.append("/");
    s.append(token.as_str());
    s.append("\">\n    vendor.inlet.shop/password/");
    s.append(id.as_str());
    s.append("/");
    s.append(token.as_str());
    s.append("\n</a>\n\n<p>-Inlet Sites</p>\n");
    s
}

} // verus!
