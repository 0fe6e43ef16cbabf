//! The banner shown on the welcome screen.

use vstd::prelude::*;
use vstd::string::StringExecFns;

verus! {

/// The banner, line by line, as one text.
pub const ASCII_LOGO: &'static str = "
      :::    ::: ::::    ::: ::::::::::: :::::::::: :::::::::: 
     :+:   :+:  :+:+:   :+:     :+:     :+:        :+:         
    +:+  +:+   :+:+:+  +:+     +:+     +:+        +:+          
   +#++:++    +#+ +:+ +#+     +#+     :#::+::#   +#++:++#      
  +#+  +#+   +#+  +#+#+#     +#+     +#+        +#+            
 #+#   #+#  #+#   #+#+#     #+#     #+#        #+#             
###    ### ###    #### ########### ###        ##########       
";

/// The banner as a `String`.
pub fn get_ascii_logo() -> (art: String)
    ensures
        art@ == ASCII_LOGO@,
{
    String::from_str(ASCII_LOGO)
}

/// The banner, ready to be drawn.
pub struct Logo {
    content: String,
}

impl View for Logo {
    type V = Seq<char>;

    closed spec fn view(&self) -> Seq<char> {
        self.content@
    }
}

impl Logo {
    /// The banner at full size.
    pub fn new() -> (logo: Logo)
        ensures
            logo@ == ASCII_LOGO@,
    {
        Logo { content: get_ascii_logo() }
    }

    /// The banner for an area of middling height; for now the full banner.
    pub fn compact() -> (logo: Logo)
        ensures
            logo@ == ASCII_LOGO@,
    {
        Logo { content: get_ascii_logo() }
    }

    /// The banner for a low area; for now the full banner.
    pub fn mini() -> (logo: Logo)
        ensures
            logo@ == ASCII_LOGO@,
    {
        Logo { content: get_ascii_logo() }
    }

    /// The banner that suits an area `height` rows high: [`Logo::mini`] below
    /// 8 rows, [`Logo::compact`] below 14, else [`Logo::new`].
    pub fn adaptive(height: u16) -> (logo: Logo)
        ensures
            logo@ == ASCII_LOGO@,
    {
        if height < 8 {
            Logo::mini()
        } else if height < 14 {
            Logo::compact()
        } else {
            Logo::new()
        }
    }

    /// The text of the banner.
    pub fn content(&self) -> (text: &str)
        ensures
            text@ == self@,
    {
        self.content.as_str()
    }
}

} // verus!
