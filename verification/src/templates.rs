//! Fixed text of the pages, forms, messages and SQL statements.
//!
//! Each constant is one literal stretch of output; the renderers interleave
//! them with escaped values, and their specifications name the same
//! constants, so the text is written in exactly one place.

use vstd::prelude::*;

verus! {

pub const MEETING_LABEL_1: &'static str = "月第";

pub const MEETING_LABEL_2: &'static str = "次例会";

pub const MONTH_RANGE_ERROR: &'static str = "月份必须在 1 到 12 之间。";

pub const COUNT_RANGE_ERROR: &'static str = "例会次数必须在 1 到 20 之间。";

pub const SEARCH_SELECT_0: &'static str = "<div class=\"search-select\"><input class=\"select-search\" type=\"search\" placeholder=\"输入首字母或关键词筛选";

pub const SEARCH_SELECT_1: &'static str = "\" oninput=\"filterLinkedSelect(this)\"><select name=\"";

pub const SEARCH_SELECT_2: &'static str = "\" required><option value=\"\">";

pub const SEARCH_SELECT_3: &'static str = "</option>";

pub const CHOOSE_PREFIX: &'static str = "请选择";

pub const SEARCH_OPTION_0: &'static str = "<option value=\"";

pub const SEARCH_OPTION_1: &'static str = "\"";

pub const SEARCH_OPTION_2: &'static str = " data-key=\"";

pub const SEARCH_OPTION_3: &'static str = "\">";

pub const SEARCH_OPTION_5: &'static str = "</option>";

pub const SELECTED_ATTR: &'static str = " selected";

pub const DISABLED_HINT: &'static str = "（已禁用）";

pub const SEARCH_SELECT_CLOSE: &'static str = "</select></div>";

pub const FILTER_SELECT_0: &'static str = "<select name=\"";

pub const FILTER_SELECT_1: &'static str = "\"><option value=\"0\">";

pub const FILTER_SELECT_2: &'static str = "</option>";

pub const FILTER_OPTION_0: &'static str = "<option value=\"";

pub const FILTER_OPTION_1: &'static str = "\"";

pub const FILTER_OPTION_2: &'static str = ">";

pub const FILTER_OPTION_4: &'static str = "</option>";

pub const SELECT_CLOSE: &'static str = "</select>";

pub const SELECT_NAME_0: &'static str = "<select name=\"";

pub const SELECT_NAME_1: &'static str = "\"";

pub const SELECT_NAME_2: &'static str = ">";

pub const REQUIRED_ATTR: &'static str = " required";

pub const MONTH_ALL_OPTION: &'static str = "<option value=\"0\">全部月份</option>";

pub const MONTH_PLACEHOLDER_OPTION: &'static str = "<option value=\"\">请选择月份</option>";

pub const MONTH_OPTION_0: &'static str = "<option value=\"";

pub const MONTH_OPTION_1: &'static str = "\"";

pub const MONTH_OPTION_2: &'static str = ">";

pub const MONTH_OPTION_3: &'static str = "月</option>";

pub const COUNT_ALL_OPTION: &'static str = "<option value=\"0\">全部次数</option>";

pub const COUNT_PLACEHOLDER_OPTION: &'static str = "<option value=\"\">请选择例会次数</option>";

pub const COUNT_OPTION_0: &'static str = "<option value=\"";

pub const COUNT_OPTION_1: &'static str = "\"";

pub const COUNT_OPTION_2: &'static str = ">第";

pub const COUNT_OPTION_3: &'static str = "次例会</option>";

pub const PROGRESS_DONE: &'static str = "完成";

pub const PROGRESS_ACTIVE: &'static str = "进行中";

pub const PROGRESS_UNDONE: &'static str = "未完成";

pub const PROGRESS_PAUSED: &'static str = "暂停";

pub const PROGRESS_ALL: &'static str = "全部";

pub const PROGRESS_SELECT_OPEN: &'static str = "<select name=\"progress\" required><option value=\"\">请选择完成进度</option>";

pub const PROGRESS_OPTION_0: &'static str = "<option value=\"";

pub const PROGRESS_OPTION_1: &'static str = "\"";

pub const PROGRESS_OPTION_2: &'static str = ">";

pub const PROGRESS_OPTION_3: &'static str = "</option>";

pub const PROGRESS_FILTER_OPEN: &'static str = "<select name=\"progress\">";

pub const OPTIONS_MISSING_WARNING: &'static str = "<div class=\"warning\">填报前需要先维护人员名单、项目号和专业方向。当前至少有一类选项为空，表单可能无法提交。</div>";

pub const ADMIN_OPTION_LINK: &'static str = "<a class=\"btn secondary\" href=\"/summary/options\">去维护选项</a>";

pub const ADMIN_BACK_LINK: &'static str = "<a class=\"btn secondary\" href=\"/summary\">返回汇总端</a>";

pub const LOG_FORM_0: &'static str = "\n<div class=\"section-title\">\n  <div>\n    <h2>";

pub const LOG_FORM_1: &'static str = "</h2>\n    <div class=\"muted\">项目号、专业方向、人员只能从预置选项中选择，不能自由填写。</div>\n  </div>\n  ";

pub const LOG_FORM_2: &'static str = "\n</div>\n";

pub const LOG_FORM_3: &'static str = "\n<form class=\"card\" method=\"post\" action=\"";

pub const LOG_FORM_4: &'static str = "\">\n  <div class=\"grid\">\n    <div>\n      <label>月份</label>\n      ";

pub const LOG_FORM_5: &'static str = "\n    </div>\n    <div>\n      <label>例会次数</label>\n      ";

pub const LOG_FORM_6: &'static str = "\n    </div>\n    <div>\n      <label>项目号</label>\n      ";

pub const LOG_FORM_7: &'static str = "\n    </div>\n    <div>\n      <label>专业方向</label>\n      ";

pub const LOG_FORM_8: &'static str = "\n    </div>\n    <div>\n      <label>工作模块负责人</label>\n      ";

pub const LOG_FORM_9: &'static str = "\n    </div>\n    <div>\n      <label>工作项填报人</label>\n      ";

pub const LOG_FORM_10: &'static str = "\n    </div>\n    <div>\n      <label>完成进度</label>\n      ";

pub const LOG_FORM_11: &'static str = "\n    </div>\n  </div>\n\n  <div class=\"grid-3\" style=\"margin-top:14px;\">\n    <div>\n      <label>上周工作项</label>\n      <textarea name=\"last_work_item\" required>";

pub const LOG_FORM_12: &'static str = "</textarea>\n    </div>\n    <div>\n      <label>原因</label>\n      <textarea name=\"reason\">";

pub const LOG_FORM_13: &'static str = "</textarea>\n    </div>\n    <div>\n      <label>本周计划工作项</label>\n      <textarea name=\"next_work_item\" required>";

pub const LOG_FORM_14: &'static str = "</textarea>\n    </div>\n  </div>\n\n  <div class=\"actions\" style=\"margin-top:16px;\">\n    <button class=\"btn\" type=\"submit\">";

pub const LOG_FORM_15: &'static str = "</button>\n    ";

pub const LOG_FORM_16: &'static str = "\n  </div>\n</form>\n";

pub const PLACEHOLDER_PROJECT: &'static str = "请选择项目号";

pub const PLACEHOLDER_SPECIALTY: &'static str = "请选择专业方向";

pub const PLACEHOLDER_MODULE_OWNER: &'static str = "请选择工作模块负责人";

pub const PLACEHOLDER_COMPLETER: &'static str = "请选择工作项填报人";

pub const FIELD_MEETING_MONTH: &'static str = "meeting_month";

pub const FIELD_MEETING_COUNT: &'static str = "meeting_count";

pub const FIELD_PROJECT_ID: &'static str = "project_id";

pub const FIELD_SPECIALTY_ID: &'static str = "specialty_id";

pub const FIELD_MODULE_OWNER_ID: &'static str = "module_owner_id";

pub const FIELD_COMPLETER_ID: &'static str = "completer_id";

pub const FILL_ITEM_0: &'static str = "\n<div class=\"work-form-item card\" style=\"margin-bottom:14px;\">\n  <div class=\"section-title\">\n    <div>\n      <h3 class=\"work-form-title\" style=\"margin:0;font-size:17px;\">工作项 1</h3>\n      <div class=\"muted\">每条工作项会保存成一条汇总记录。</div>\n    </div>\n    <button class=\"btn danger small\" type=\"button\" onclick=\"removeWorkItem(this)\">删除本条</button>\n  </div>\n  <div class=\"grid\">\n    <div>\n      <label>项目号</label>\n      ";

pub const FILL_ITEM_1: &'static str = "\n    </div>\n    <div>\n      <label>专业方向</label>\n      ";

pub const FILL_ITEM_2: &'static str = "\n    </div>\n    <div>\n      <label>工作模块负责人</label>\n      ";

pub const FILL_ITEM_3: &'static str = "\n    </div>\n    <div>\n      <label>工作项填报人</label>\n      ";

pub const FILL_ITEM_4: &'static str = "\n    </div>\n    <div>\n      <label>完成进度</label>\n      ";

pub const FILL_ITEM_5: &'static str = "\n    </div>\n  </div>\n  <div class=\"grid-3\" style=\"margin-top:14px;\">\n    <div>\n      <label>上周工作项</label>\n      <textarea name=\"last_work_item\" required></textarea>\n    </div>\n    <div>\n      <label>原因</label>\n      <textarea name=\"reason\"></textarea>\n    </div>\n    <div>\n      <label>本周计划工作项</label>\n      <textarea name=\"next_work_item\" required></textarea>\n    </div>\n  </div>\n</div>\n";

pub const WARNING_DIV_0: &'static str = "<div class=\"warning\">";

pub const WARNING_DIV_1: &'static str = "</div>";

pub const FILL_FORM_0: &'static str = "\n<div class=\"section-title\">\n  <div>\n    <h2>日志填报</h2>\n    <div class=\"muted\">一次可以提交多条工作项。请选择“月份”和“第几次例会”，再填写工作项列表。</div>\n  </div>\n</div>\n";

pub const FILL_FORM_1: &'static str = "\n<form method=\"post\" action=\"/fill/new\" id=\"fill-form\">\n  <section class=\"card\">\n    <div class=\"grid\">\n      <div>\n        <label>月份</label>\n        ";

pub const FILL_FORM_2: &'static str = "\n      </div>\n      <div>\n        <label>例会次数</label>\n        ";

pub const FILL_FORM_3: &'static str = "\n      </div>\n    </div>\n  </section>\n\n  <section>\n    <div class=\"section-title\">\n      <div>\n        <h2>工作项列表</h2>\n        <div class=\"muted\">点击“新增工作项”可以继续添加；每条工作项可单独删除。</div>\n      </div>\n      <button class=\"btn secondary\" type=\"button\" onclick=\"addWorkItem()\">新增工作项</button>\n    </div>\n    <div id=\"work-items\">\n      ";

pub const FILL_FORM_4: &'static str = "\n    </div>\n  </section>\n\n  <section class=\"card\">\n    <div class=\"actions\">\n      <button class=\"btn\" type=\"submit\">提交全部工作项</button>\n      <button class=\"btn secondary\" type=\"button\" onclick=\"addWorkItem()\">继续新增工作项</button>\n    </div>\n  </section>\n</form>\n<script>\nfunction resetField(el) {\n  if (el.tagName === 'SELECT') { rebuildSelectOptions(el, ''); el.selectedIndex = 0; return; }\n  if (el.tagName === 'TEXTAREA') { el.value = ''; return; }\n  if (el.tagName === 'INPUT' && el.type !== 'date') { el.value = ''; }\n}\nfunction refreshWorkItemNumbers() {\n  const items = document.querySelectorAll('.work-form-item');\n  items.forEach((item, index) => {\n    const title = item.querySelector('.work-form-title');\n    if (title) title.textContent = '工作项 ' + (index + 1);\n  });\n}\nfunction addWorkItem() {\n  const container = document.getElementById('work-items');\n  const first = container.querySelector('.work-form-item');\n  if (!first) return;\n  const clone = first.cloneNode(true);\n  clone.querySelectorAll('input, textarea, select').forEach(resetField);\n  container.appendChild(clone);\n  refreshWorkItemNumbers();\n}\nfunction removeWorkItem(btn) {\n  const items = document.querySelectorAll('.work-form-item');\n  if (items.length <= 1) {\n    alert('至少保留一条工作项。');\n    return;\n  }\n  btn.closest('.work-form-item').remove();\n  refreshWorkItemNumbers();\n}\n</script>\n";

pub const FILTER_FORM_0: &'static str = "\n<form class=\"card\" method=\"get\" action=\"/summary\">\n  <div class=\"section-title\">\n    <div>\n      <h2>日志筛选</h2>\n      <div class=\"muted\">本页只显示完整的每条填报日志和筛选框；禁用项仍可用于历史汇总筛选。</div>\n    </div>\n    <div class=\"actions\">\n      <a class=\"btn secondary\" href=\"/summary\">清空筛选</a>\n      <button class=\"btn\" type=\"submit\">查询</button>\n    </div>\n  </div>\n  <div class=\"grid\">\n    <div><label>月份</label>";

pub const FILTER_FORM_1: &'static str = "</div>\n    <div><label>例会次数</label>";

pub const FILTER_FORM_2: &'static str = "</div>\n    <div><label>项目号</label>";

pub const FILTER_FORM_3: &'static str = "</div>\n    <div><label>专业方向</label>";

pub const FILTER_FORM_4: &'static str = "</div>\n    <div><label>人员</label>";

pub const FILTER_FORM_5: &'static str = "</div>\n    <div><label>完成进度</label>";

pub const FILTER_FORM_6: &'static str = "</div>\n  </div>\n</form>\n";

pub const ALL_PROJECTS: &'static str = "全部项目";

pub const ALL_SPECIALTIES: &'static str = "全部专业方向";

pub const FIELD_PERSON_ID: &'static str = "person_id";

pub const ALL_PERSONS: &'static str = "全部人员";

pub const SUMMARY_TOOLS_0: &'static str = "\n<section class=\"grid-2\">\n  <div class=\"card tool-card\">\n    <h2>日志汇总</h2>\n    <p class=\"muted\">选择某次例会和某个项目，进入独立页面生成“上周工作项汇总 / 本周计划工作项汇总”。</p>\n    <form method=\"get\" action=\"/summary/project-report\">\n      <div class=\"grid-3\">\n        <div><label>月份</label>";

pub const SUMMARY_TOOLS_1: &'static str = "</div>\n        <div><label>例会次数</label>";

pub const SUMMARY_TOOLS_2: &'static str = "</div>\n        <div><label>项目号</label>";

pub const SUMMARY_TOOLS_3: &'static str = "</div>\n      </div>\n      <div class=\"actions\" style=\"margin-top:14px;\"><button class=\"btn\" type=\"submit\">生成项目日志汇总</button></div>\n    </form>\n  </div>\n  <div class=\"card tool-card\">\n    <h2>填报统计</h2>\n    <p class=\"muted\">选择某次例会，进入独立页面查看完整人员名单及是否已填报。</p>\n    <form method=\"get\" action=\"/summary/attendance\">\n      <div class=\"grid-3\">\n        <div><label>月份</label>";

pub const SUMMARY_TOOLS_4: &'static str = "</div>\n        <div><label>例会次数</label>";

pub const SUMMARY_TOOLS_5: &'static str = "</div>\n      </div>\n      <div class=\"actions\" style=\"margin-top:14px;\"><button class=\"btn\" type=\"submit\">查看填报统计</button></div>\n    </form>\n  </div>\n</section>\n";

pub const PICK_PROJECT: &'static str = "请选择项目";

pub const WORK_GROUP_0: &'static str = "<div class=\"work-group\"><h3>";

pub const WORK_GROUP_1: &'static str = "</h3>";

pub const LAST_WORK_ITEM_0: &'static str = "<div class=\"work-item\">\n  <div class=\"summary-title\"><span class=\"pill\">";

pub const LAST_WORK_ITEM_1: &'static str = "</span></div>\n  <div class=\"muted\" style=\"margin-top:6px;\">项目号：";

pub const LAST_WORK_ITEM_2: &'static str = "｜工作项填报人：";

pub const LAST_WORK_ITEM_3: &'static str = "｜工作模块负责人：";

pub const LAST_WORK_ITEM_4: &'static str = "</div>\n  <div class=\"text-block\" style=\"margin-top:8px;\"><strong>上周工作：</strong>";

pub const LAST_WORK_ITEM_5: &'static str = "</div>\n  <div class=\"text-block muted\" style=\"margin-top:6px;\"><strong>原因：</strong>";

pub const LAST_WORK_ITEM_6: &'static str = "</div>\n</div>";

pub const NEXT_WORK_ITEM_0: &'static str = "<div class=\"work-item\">\n  <div class=\"muted\">项目号：";

pub const NEXT_WORK_ITEM_1: &'static str = "｜来源填报人：";

pub const NEXT_WORK_ITEM_2: &'static str = "</div>\n  <div class=\"text-block\" style=\"margin-top:8px;\"><strong>本周计划工作：</strong>";

pub const NEXT_WORK_ITEM_3: &'static str = "</div>\n</div>";

pub const DIV_CLOSE: &'static str = "</div>";

pub const NO_RECORDS: &'static str = "<div class=\"muted\">暂无记录。</div>";

pub const WORK_PANELS_0: &'static str = "\n<div class=\"grid-2\">\n  <section class=\"card\">\n    <div class=\"section-title\"><h2>上周工作项汇总</h2></div>\n    ";

pub const WORK_PANELS_1: &'static str = "\n  </section>\n  <section class=\"card\">\n    <div class=\"section-title\"><h2>本周计划工作项汇总</h2></div>\n    ";

pub const WORK_PANELS_2: &'static str = "\n  </section>\n</div>\n";

pub const PROJECT_REPORT_FORM_0: &'static str = "\n<section class=\"card\">\n  <div class=\"section-title\">\n    <div>\n      <h2>项目日志汇总</h2>\n      <div class=\"muted\">选择某次例会和某个项目，生成上周工作项汇总和本周计划工作项汇总。</div>\n    </div>\n    <div class=\"actions\"><a class=\"btn secondary\" href=\"/summary\">返回日志明细</a></div>\n  </div>\n  <form method=\"get\" action=\"/summary/project-report\">\n    <div class=\"grid\">\n      <div><label>月份</label>";

pub const PROJECT_REPORT_FORM_1: &'static str = "</div>\n      <div><label>例会次数</label>";

pub const PROJECT_REPORT_FORM_2: &'static str = "</div>\n      <div><label>项目号</label>";

pub const PROJECT_REPORT_FORM_3: &'static str = "</div>\n      <div style=\"align-self:end;\"><button class=\"btn\" type=\"submit\">生成汇总</button></div>\n    </div>\n  </form>\n</section>\n";

pub const ATTENDANCE_FORM_0: &'static str = "\n<section class=\"card\">\n  <div class=\"section-title\">\n    <div>\n      <h2>填报统计</h2>\n      <div class=\"muted\">选择某次例会后，系统会列出完整人员名单，并判断该人员是否已有填报记录。</div>\n    </div>\n    <div class=\"actions\"><a class=\"btn secondary\" href=\"/summary\">返回日志明细</a></div>\n  </div>\n  <form method=\"get\" action=\"/summary/attendance\">\n    <div class=\"grid\">\n      <div><label>月份</label>";

pub const ATTENDANCE_FORM_1: &'static str = "</div>\n      <div><label>例会次数</label>";

pub const ATTENDANCE_FORM_2: &'static str = "</div>\n      <div style=\"align-self:end;\"><button class=\"btn\" type=\"submit\">生成统计表</button></div>\n    </div>\n  </form>\n</section>\n";

pub const NOT_FILED: &'static str = "<span class=\"pill no\">未填报</span>";

pub const FILED: &'static str = "<span class=\"pill ok\">已填报</span>";

pub const ATTENDANCE_ROW_0: &'static str = "<tr>\n<td>";

pub const ATTENDANCE_ROW_2: &'static str = "</td>\n<td>";

pub const ATTENDANCE_ROW_3: &'static str = "</td>\n<td>";

pub const ATTENDANCE_ROW_4: &'static str = "</td>\n<td>";

pub const ATTENDANCE_ROW_5: &'static str = "</td>\n<td>";

pub const ATTENDANCE_ROW_6: &'static str = "</td>\n<td>";

pub const ATTENDANCE_ROW_7: &'static str = "</td>\n</tr>";

pub const LIST_SEP: &'static str = "、";

pub const NO_SUBMISSION: &'static str = "-";

pub const NO_PERSONS_ROW: &'static str = "<tr><td colspan=\"6\" class=\"muted\">暂无人员名单，请先到选项维护中新增人员。</td></tr>";

pub const ATTENDANCE_TABLE_0: &'static str = "\n<section class=\"card\">\n  <div class=\"section-title\">\n    <div>\n      <h2>";

pub const ATTENDANCE_TABLE_1: &'static str = " 填报统计表</h2>\n      <div class=\"muted\">按“工作项填报人”判断是否有该次例会的填报记录。</div>\n    </div>\n  </div>\n  <div class=\"table-wrap\">\n    <table>\n      <thead><tr><th>人员</th><th>状态</th><th>填报条数</th><th>涉及项目</th><th>专业方向</th><th>最近提交时间</th></tr></thead>\n      <tbody>";

pub const ATTENDANCE_TABLE_2: &'static str = "</tbody>\n    </table>\n  </div>\n</section>\n";

pub const LOG_ROW_0: &'static str = "<tr>\n<td class=\"table-short\">";

pub const LOG_ROW_1: &'static str = "</td>\n<td class=\"table-short\">";

pub const LOG_ROW_2: &'static str = "</td>\n<td class=\"table-short\">";

pub const LOG_ROW_3: &'static str = "</td>\n<td class=\"table-short\">";

pub const LOG_ROW_4: &'static str = "</td>\n<td><div class=\"table-text\">";

pub const LOG_ROW_5: &'static str = "</div></td>\n<td class=\"table-short\">";

pub const LOG_ROW_6: &'static str = "</td>\n<td><span class=\"pill\">";

pub const LOG_ROW_7: &'static str = "</span></td>\n<td><div class=\"table-text\">";

pub const LOG_ROW_8: &'static str = "</div></td>\n<td><div class=\"table-text\">";

pub const LOG_ROW_9: &'static str = "</div></td>\n<td class=\"table-short\">";

pub const LOG_ROW_10: &'static str = "</td>\n<td>\n  <div class=\"actions\">\n    <a class=\"btn secondary small\" href=\"/summary/logs/edit/";

pub const LOG_ROW_11: &'static str = "\">编辑</a>\n    <form method=\"post\" action=\"/summary/logs/delete/";

pub const LOG_ROW_12: &'static str = "\" onsubmit=\"return confirm('确认删除这条记录？');\">\n      <button class=\"btn danger small\" type=\"submit\">删除</button>\n    </form>\n  </div>\n</td>\n</tr>";

pub const NO_LOGS_ROW: &'static str = "<tr><td colspan=\"11\" class=\"muted\">暂无记录。</td></tr>";

pub const LOG_TABLE_0: &'static str = "\n<section class=\"card\">\n  <div class=\"section-title\">\n    <div>\n      <h2>日志明细</h2>\n      <div class=\"muted\">完整展示每条填报日志。较长工作描述会在单元格内自动换行，并限制高度。</div>\n    </div>\n  </div>\n  <div class=\"table-wrap\">\n    <table>\n      <thead>\n        <tr>\n          <th>例会</th>\n          <th>项目号</th>\n          <th>专业方向</th>\n          <th>工作模块负责人</th>\n          <th>上周工作项</th>\n          <th>工作项填报人</th>\n          <th>完成进度</th>\n          <th>原因</th>\n          <th>本周计划工作项</th>\n          <th>创建时间</th>\n          <th>操作</th>\n        </tr>\n      </thead>\n      <tbody>";

pub const LOG_TABLE_1: &'static str = "</tbody>\n    </table>\n  </div>\n</section>\n";

pub const OPTIONS_HOME: &'static str = "\n<div class=\"section-title\">\n  <div>\n    <h2>选项维护</h2>\n    <div class=\"muted\">汇总端维护基础选项，填报端只能从这些选项中选择。</div>\n  </div>\n  <a class=\"btn secondary\" href=\"/summary\">返回汇总端</a>\n</div>\n<div class=\"grid-3\">\n  <a class=\"card\" href=\"/summary/options/persons\" style=\"text-decoration:none;color:inherit;\">\n    <h2>人员名单</h2>\n    <p class=\"muted\">维护工作模块负责人、工作项填报人可选项。</p>\n  </a>\n  <a class=\"card\" href=\"/summary/options/projects\" style=\"text-decoration:none;color:inherit;\">\n    <h2>项目号</h2>\n    <p class=\"muted\">维护填报端可选择的项目号。</p>\n  </a>\n  <a class=\"card\" href=\"/summary/options/specialties\" style=\"text-decoration:none;color:inherit;\">\n    <h2>专业方向</h2>\n    <p class=\"muted\">维护填报端可选择的专业方向。</p>\n  </a>\n</div>\n";

pub const STATUS_ON: &'static str = "<span class=\"status-label\"><span class=\"status-dot\"></span>启用中</span>";

pub const STATUS_OFF: &'static str = "<span class=\"status-label off\"><span class=\"status-dot\"></span>已禁用</span>";

pub const BUTTON_DISABLE: &'static str = "设为禁用";

pub const BUTTON_ENABLE: &'static str = "重新启用";

pub const BUTTON_CLASS_ON: &'static str = "btn secondary small";

pub const BUTTON_CLASS_OFF: &'static str = "btn small";

pub const OPTION_ROW_0: &'static str = "<tr>\n<td>";

pub const OPTION_ROW_1: &'static str = "</td>\n<td>";

pub const OPTION_ROW_2: &'static str = "</td>\n<td>\n  <div class=\"actions\">\n    <form method=\"post\" action=\"";

pub const OPTION_ROW_3: &'static str = "/";

pub const OPTION_ROW_4: &'static str = "/toggle\">\n      <button class=\"";

pub const OPTION_ROW_5: &'static str = "\" type=\"submit\">";

pub const OPTION_ROW_6: &'static str = "</button>\n    </form>\n    <form method=\"post\" action=\"";

pub const OPTION_ROW_7: &'static str = "/";

pub const OPTION_ROW_8: &'static str = "/delete\" onsubmit=\"return confirm('确认删除这个选项？如果已被日志引用，系统会阻止删除。');\">\n      <button class=\"btn danger small\" type=\"submit\">删除</button>\n    </form>\n  </div>\n</td>\n</tr>";

pub const NO_OPTIONS_ROW: &'static str = "<tr><td colspan=\"3\" class=\"muted\">暂无选项。</td></tr>";

pub const SUCCESS_DIV_0: &'static str = "<div class=\"success\">";

pub const SUCCESS_DIV_1: &'static str = "</div>";

pub const OPTION_ADMIN_0: &'static str = "\n<div class=\"section-title\">\n  <div>\n    <h2>";

pub const OPTION_ADMIN_1: &'static str = "</h2>\n    <div class=\"muted\">建议禁用不再使用的选项，不要物理删除，这样历史日志仍能正常展示。</div>\n  </div>\n  <a class=\"btn secondary\" href=\"/summary/options\">返回选项维护</a>\n</div>\n";

pub const OPTION_ADMIN_2: &'static str = "\n<form class=\"card\" method=\"post\" action=\"";

pub const OPTION_ADMIN_3: &'static str = "\">\n  <div class=\"grid-3\">\n    <div>\n      <label>";

pub const OPTION_ADMIN_4: &'static str = "</label>\n      <input name=\"name\" placeholder=\"请输入";

pub const OPTION_ADMIN_5: &'static str = "\" required>\n    </div>\n    <div style=\"align-self:end;\">\n      <button class=\"btn\" type=\"submit\">新增配置项</button>\n    </div>\n  </div>\n</form>\n<section class=\"card\">\n  <div class=\"table-wrap\">\n    <table>\n      <thead><tr><th>名称</th><th>状态</th><th>操作</th></tr></thead>\n      <tbody>";

pub const OPTION_ADMIN_6: &'static str = "</tbody>\n    </table>\n  </div>\n</section>\n";

pub const PAGE_0: &'static str = "<!doctype html>\n<html lang=\"zh-CN\">\n<head>\n  <meta charset=\"utf-8\">\n  <meta name=\"viewport\" content=\"width=device-width, initial-scale=1\">\n  <title>";

pub const PAGE_1: &'static str = "</title>\n  <style>\n    * { box-sizing: border-box; }\n    body { margin: 0; font-family: -apple-system, BlinkMacSystemFont, \"Segoe UI\", \"Microsoft YaHei\", sans-serif; background: #f6f7fb; color: #222; }\n    header { background: #182235; color: #fff; padding: 14px 22px; display: flex; align-items: center; justify-content: space-between; gap: 16px; }\n    header h1 { font-size: 18px; margin: 0; font-weight: 650; }\n    header .subtitle { color: #dbe6ff; font-size: 13px; }\n    main { max-width: 1360px; margin: 22px auto; padding: 0 18px 40px; }\n    .card { background: #fff; border: 1px solid #e6e9f1; border-radius: 14px; padding: 18px; margin-bottom: 18px; box-shadow: 0 8px 24px rgba(18, 30, 56, .06); }\n    .muted { color: #667085; font-size: 13px; }\n    .grid { display: grid; grid-template-columns: repeat(4, minmax(160px, 1fr)); gap: 12px; }\n    .grid-3 { display: grid; grid-template-columns: repeat(3, minmax(180px, 1fr)); gap: 12px; }\n    .grid-2 { display: grid; grid-template-columns: repeat(2, minmax(260px, 1fr)); gap: 14px; }\n    label { display: block; font-size: 13px; color: #475467; margin-bottom: 6px; }\n    input, select, textarea { width: 100%; border: 1px solid #d0d5dd; border-radius: 10px; padding: 9px 10px; font: inherit; background: #fff; }\n    textarea { min-height: 86px; resize: vertical; line-height: 1.55; }\n    .btn { display: inline-flex; align-items: center; justify-content: center; border: none; border-radius: 10px; padding: 9px 14px; color: #fff; background: #2563eb; cursor: pointer; text-decoration: none; font: inherit; }\n    .btn.secondary { color: #344054; background: #eef2f7; }\n    .btn.danger { background: #dc2626; }\n    .btn.warn { background: #f59e0b; color: #111827; }\n    .btn.small { padding: 6px 10px; border-radius: 8px; font-size: 13px; }\n    .actions { display: flex; gap: 8px; align-items: center; flex-wrap: wrap; }\n    table { width: 100%; border-collapse: collapse; background: #fff; min-width: 1120px; }\n    th, td { border-bottom: 1px solid #eaecf0; padding: 10px 8px; text-align: left; vertical-align: top; font-size: 14px; }\n    th { background: #f9fafb; color: #344054; font-weight: 650; position: sticky; top: 0; }\n    .table-wrap { overflow-x: auto; border: 1px solid #eaecf0; border-radius: 12px; }\n    .pill { display: inline-block; padding: 3px 8px; border-radius: 999px; font-size: 12px; background: #eef2ff; color: #3730a3; }\n    .pill.off { background: #f2f4f7; color: #667085; }\n    .pill.ok { background: #ecfdf3; color: #067647; }\n    .pill.no { background: #fef3f2; color: #b42318; }\n    .status-label { display: inline-flex; align-items: center; gap: 7px; font-size: 13px; font-weight: 650; color: #067647; }\n    .status-label.off { color: #667085; }\n    .status-dot { width: 8px; height: 8px; border-radius: 999px; background: #12b76a; display: inline-block; }\n    .status-label.off .status-dot { background: #98a2b3; }\n    .section-title { display: flex; justify-content: space-between; align-items: flex-end; gap: 12px; margin-bottom: 14px; }\n    .section-title h2 { margin: 0; font-size: 20px; }\n    .work-group { margin-top: 14px; border-top: 1px solid #eef2f7; padding-top: 12px; }\n    .work-group h3 { margin: 0 0 10px; font-size: 16px; color: #0f172a; }\n    .work-item { padding: 10px 0; border-bottom: 1px dashed #e5e7eb; }\n    .work-item:last-child { border-bottom: 0; }\n    .warning { padding: 12px 14px; border-radius: 12px; background: #fff7ed; border: 1px solid #fed7aa; color: #9a3412; margin-bottom: 16px; }\n    .success { padding: 14px; border-radius: 12px; background: #ecfdf3; border: 1px solid #abefc6; color: #067647; }\n    .search-select { display: grid; gap: 6px; }\n    .select-search { border-color: #c7d2fe; background: #f8fafc; }\n    .text-block { white-space: pre-wrap; overflow-wrap: anywhere; word-break: break-word; line-height: 1.65; max-height: 150px; overflow-y: auto; padding-right: 4px; }\n    .summary-title { overflow-wrap: anywhere; word-break: break-word; line-height: 1.55; }\n    .table-text { white-space: pre-wrap; overflow-wrap: anywhere; word-break: break-word; line-height: 1.55; max-height: 120px; overflow-y: auto; min-width: 180px; }\n    .table-short { overflow-wrap: anywhere; word-break: break-word; }\n    .work-item, .work-item * { overflow-wrap: anywhere; word-break: break-word; }\n    .tool-card h2 { margin-top: 0; }\n    @media (max-width: 860px) { .grid, .grid-3, .grid-2 { grid-template-columns: 1fr; } header { align-items: flex-start; flex-direction: column; } }\n  </style>\n</head>\n<body>\n<header>\n  <h1>日志填报系统</h1>\n  <div class=\"subtitle\">局域网轻量填报与汇总</div>\n</header>\n<main>\n";

pub const PAGE_2: &'static str = "\n</main>\n\n<script>\nfunction normalizeForFilter(text) {\n  return (text || '').toString().trim().toLowerCase().replace(/\\s+/g, '');\n}\nfunction initialsOf(text) {\n  return normalizeForFilter(text)\n    .split(/[^a-z0-9]+/i)\n    .filter(Boolean)\n    .map(function(part) { return part.charAt(0); })\n    .join('');\n}\nfunction ensureSelectCache(select) {\n  if (select.dataset.allOptions) return;\n  const options = Array.from(select.options).map(function(option, index) {\n    return {\n      value: option.value,\n      text: option.textContent || '',\n      key: option.getAttribute('data-key') || '',\n      isPlaceholder: index === 0\n    };\n  });\n  select.dataset.allOptions = JSON.stringify(options);\n}\nfunction optionMatchesKeyword(item, keyword) {\n  if (!keyword) return true;\n  const text = normalizeForFilter(item.text);\n  const key = normalizeForFilter(item.key);\n  const initials = initialsOf(item.text);\n  return text.startsWith(keyword)\n    || text.includes(keyword)\n    || key.startsWith(keyword)\n    || key.includes(keyword)\n    || initials.startsWith(keyword);\n}\nfunction rebuildSelectOptions(select, keyword) {\n  ensureSelectCache(select);\n  const allOptions = JSON.parse(select.dataset.allOptions || '[]');\n  const currentValue = select.value;\n  select.innerHTML = '';\n  allOptions.forEach(function(item, index) {\n    if (index !== 0 && !optionMatchesKeyword(item, keyword)) return;\n    const option = document.createElement('option');\n    option.value = item.value;\n    option.textContent = item.text;\n    if (item.key) option.setAttribute('data-key', item.key);\n    select.appendChild(option);\n  });\n  const hasCurrent = Array.from(select.options).some(function(option) { return option.value === currentValue; });\n  if (hasCurrent) {\n    select.value = currentValue;\n  } else {\n    select.selectedIndex = 0;\n  }\n}\nfunction filterLinkedSelect(input) {\n  const box = input.closest('.search-select');\n  if (!box) return;\n  const select = box.querySelector('select');\n  if (!select) return;\n  rebuildSelectOptions(select, normalizeForFilter(input.value));\n}\ndocument.addEventListener('DOMContentLoaded', function() {\n  document.querySelectorAll('.search-select select').forEach(ensureSelectCache);\n});\n</script>\n</body>\n</html>";

pub const REPORT_HEADING_0: &'static str = "<section class=\"card\"><h2>";

pub const REPORT_HEADING_1: &'static str = " - ";

pub const REPORT_HEADING_2: &'static str = "</h2><div class=\"muted\">以下为该项目在该次例会中的上周/本周计划工作项汇总。</div></section>";

pub const SELECTED_PROJECT_FALLBACK: &'static str = "所选项目";

pub const LOG_NOT_FOUND: &'static str = "<div class=\"card warning\">记录不存在。</div>";

pub const EDIT_PATH_0: &'static str = "/summary/logs/edit/";

pub const EDIT_TITLE: &'static str = "编辑日志";

pub const SAVE_LABEL: &'static str = "保存修改";

pub const TABLE_PERSON: &'static str = "persons";

pub const LABEL_COLUMN_PERSON: &'static str = "name";

pub const TITLE_PERSON: &'static str = "人员名单";

pub const PATH_PERSON: &'static str = "/summary/options/persons";

pub const INPUT_LABEL_PERSON: &'static str = "人员姓名";

pub const TABLE_PROJECT: &'static str = "projects";

pub const LABEL_COLUMN_PROJECT: &'static str = "project_no";

pub const TITLE_PROJECT: &'static str = "项目号选项";

pub const PATH_PROJECT: &'static str = "/summary/options/projects";

pub const INPUT_LABEL_PROJECT: &'static str = "项目号";

pub const TABLE_SPECIALTY: &'static str = "specialties";

pub const LABEL_COLUMN_SPECIALTY: &'static str = "name";

pub const TITLE_SPECIALTY: &'static str = "专业方向选项";

pub const PATH_SPECIALTY: &'static str = "/summary/options/specialties";

pub const INPUT_LABEL_SPECIALTY: &'static str = "专业方向";

pub const MISSING_FIELD_0: &'static str = "缺少字段：";

pub const INVALID_FIELD_0: &'static str = "字段 ";

pub const INVALID_FIELD_1: &'static str = " 的值无效。";

pub const NO_WORK_ITEMS: &'static str = "至少需要填写一条工作项。";

pub const LENGTH_MISMATCH_0: &'static str = "工作项字段数量不一致：";

pub const LENGTH_MISMATCH_1: &'static str = "。";

pub const MISSING_LAST_ITEM_0: &'static str = "第 ";

pub const MISSING_LAST_ITEM_1: &'static str = " 条工作项缺少上周工作项。";

pub const MISSING_NEXT_ITEM_0: &'static str = "第 ";

pub const MISSING_NEXT_ITEM_1: &'static str = " 条工作项缺少本周计划工作项。";

pub const NO_VALID_WORK_ITEMS: &'static str = "至少需要填写一条有效工作项。";

pub const FIELD_LAST_WORK_ITEM: &'static str = "last_work_item";

pub const FIELD_PROGRESS: &'static str = "progress";

pub const FIELD_REASON: &'static str = "reason";

pub const FIELD_NEXT_WORK_ITEM: &'static str = "next_work_item";

pub const FIND_OPTION_SQL_0: &'static str = "SELECT id FROM ";

pub const FIND_OPTION_SQL_1: &'static str = " WHERE ";

pub const FIND_OPTION_SQL_2: &'static str = " = ?1";

pub const INSERT_OPTION_SQL_0: &'static str = "INSERT INTO ";

pub const INSERT_OPTION_SQL_1: &'static str = " (";

pub const INSERT_OPTION_SQL_2: &'static str = ", is_active, sort_order, created_at)\n         VALUES (?1, 1, (SELECT COALESCE(MAX(sort_order), 0) + 1 FROM ";

pub const INSERT_OPTION_SQL_3: &'static str = "), ?2)";

pub const EMPTY_OPTION_ERROR: &'static str = "配置项名称不能为空。";

pub const DUPLICATE_OPTION_ERROR_0: &'static str = "配置项“";

pub const DUPLICATE_OPTION_ERROR_1: &'static str = "”已存在，请勿重复新增。";

pub const ACTIVE_ONLY_CLAUSE: &'static str = "WHERE is_active = 1";

pub const FETCH_OPTIONS_SQL_0: &'static str = "SELECT id, ";

pub const FETCH_OPTIONS_SQL_1: &'static str = " AS label, is_active, sort_order\n         FROM ";

pub const FETCH_OPTIONS_SQL_2: &'static str = "\n         ";

pub const FETCH_OPTIONS_SQL_3: &'static str = "\n         ORDER BY is_active DESC, sort_order ASC, label ASC";

pub const TOGGLE_OPTION_SQL_0: &'static str = "UPDATE ";

pub const TOGGLE_OPTION_SQL_1: &'static str = " SET is_active = CASE WHEN is_active = 1 THEN 0 ELSE 1 END WHERE id = ?1";

pub const PERSON_REFERENCES_SQL: &'static str = "SELECT COUNT(*) FROM weekly_logs WHERE module_owner_id = ?1 OR completer_id = ?1 OR next_owner_id = ?1";

pub const PROJECT_REFERENCES_SQL: &'static str = "SELECT COUNT(*) FROM weekly_logs WHERE project_id = ?1";

pub const SPECIALTY_REFERENCES_SQL: &'static str = "SELECT COUNT(*) FROM weekly_logs WHERE specialty_id = ?1";

pub const OPTION_IN_USE_ERROR_0: &'static str = "该选项已被 ";

pub const OPTION_IN_USE_ERROR_1: &'static str = " 条日志引用，不能删除。可以使用“禁用”让填报端不再显示它。";

pub const DELETE_OPTION_SQL_0: &'static str = "DELETE FROM ";

pub const DELETE_OPTION_SQL_1: &'static str = " WHERE id = ?1";

pub const FILL_SUCCESS: &'static str = "\n<div class=\"card success\">\n  <h2>提交成功</h2>\n  <p>本次提交的工作项已经保存到 SQLite 数据库。</p>\n  <div class=\"actions\">\n    <a class=\"btn\" href=\"/fill/new\">继续填报</a>\n  </div>\n</div>\n";

} // verus!
